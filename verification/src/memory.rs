//! A flat byte store behind an address translator that folds addresses and
//! marks read-only regions.

use crate::errors::Error;
use vstd::prelude::*;
use vstd::slice::slice_subrange;

verus! {

/// Whether `mapper` can stand as an address translator: it accepts every
/// address and gives one answer for each.
pub open spec fn is_address_map<F: Fn(u16) -> (usize, bool)>(mapper: F) -> bool {
    &&& forall|address: u16| call_requires(mapper, (address,))
    &&& forall|address: u16, first: (usize, bool), second: (usize, bool)|
        call_ensures(mapper, (address,), first) && call_ensures(mapper, (address,), second)
            ==> first == second
}

/// The function that `mapper` computes.
pub closed spec fn translation<F: Fn(u16) -> (usize, bool)>(mapper: F) -> spec_fn(u16) -> (
    usize,
    bool,
) {
    |address: u16| choose|answer: (usize, bool)| call_ensures(mapper, (address,), answer)
}

/// What a translator answers for an address is what its function gives.
pub proof fn lemma_translation<F: Fn(u16) -> (usize, bool)>(
    mapper: F,
    address: u16,
    answer: (usize, bool),
)
    requires
        is_address_map(mapper),
        call_ensures(mapper, (address,), answer),
    ensures
        translation(mapper)(address) == answer,
{
}

/// What a memory is to its users: the bytes it holds, and the translation
/// from addresses to an index into them and a read-only mark.
pub struct MemoryModel {
    pub cells: Seq<u8>,
    pub map: spec_fn(u16) -> (usize, bool),
}

impl MemoryModel {
    /// The index that `address` translates to.
    pub open spec fn index_of(self, address: u16) -> usize {
        (self.map)(address).0
    }

    /// Whether `address` lies in a read-only region.
    pub open spec fn is_rom(self, address: u16) -> bool {
        (self.map)(address).1
    }

    /// Whether a read of `address` succeeds.
    pub open spec fn readable(self, address: u16) -> bool {
        self.index_of(address) < self.cells.len()
    }

    /// Whether a write to `address` succeeds.
    pub open spec fn writable(self, address: u16) -> bool {
        self.readable(address) && !self.is_rom(address)
    }

    /// What a read of `address` gives.
    pub open spec fn read(self, address: u16) -> Result<u8, Error> {
        if self.readable(address) {
            Ok(self.cells[self.index_of(address) as int])
        } else {
            Err(Error::InvalidMemory(self.index_of(address)))
        }
    }

    /// The outcome of a write check: nothing, or the error a write gives.
    pub open spec fn check_write(self, address: u16) -> Result<(), Error> {
        if self.writable(address) {
            Ok(())
        } else {
            Err(Error::InvalidMemory(self.index_of(address)))
        }
    }

    /// The memory with `value` stored at `address`, whatever the read-only
    /// mark says.
    pub open spec fn store(self, address: u16, value: u8) -> MemoryModel {
        MemoryModel { cells: self.cells.update(self.index_of(address) as int, value), ..self }
    }

    /// What a write of `value` to `address` gives: the memory with the value
    /// stored, or the error of the check.
    pub open spec fn write(self, address: u16, value: u8) -> Result<MemoryModel, Error> {
        match self.check_write(address) {
            Ok(_) => Ok(self.store(address, value)),
            Err(error) => Err(error),
        }
    }

    /// The room between the index of `address` and the end of the cells.
    pub open spec fn space_left(self, address: u16) -> int {
        self.cells.len() - self.index_of(address)
    }

    /// What loading an image at `address` gives: the memory with the image
    /// from the index of `address` on, or an error where the image is longer
    /// than the room there. Read-only marks are not asked.
    pub open spec fn load_rom(self, rom: Seq<u8>, address: u16) -> Result<MemoryModel, Error> {
        let start = self.index_of(address) as int;
        if rom.len() > self.space_left(address) {
            Err(
                Error::RomSize {
                    rom_size: rom.len() as usize,
                    space_left: if self.space_left(address) < 0 {
                        0usize
                    } else {
                        self.space_left(address) as usize
                    },
                },
            )
        } else {
            Ok(
                MemoryModel {
                    cells: Seq::new(
                        self.cells.len(),
                        |i: int|
                            if start <= i < start + rom.len() {
                                rom[i - start]
                            } else {
                                self.cells[i]
                            },
                    ),
                    ..self
                },
            )
        }
    }

    /// The `size` bytes from the index of `address` on, or an error where
    /// they would reach beyond the cells.
    pub open spec fn slice(self, address: u16, size: usize) -> Result<Seq<u8>, Error> {
        let start = self.index_of(address) as int;
        if start + size <= self.cells.len() {
            Ok(self.cells.subrange(start, start + size))
        } else {
            Err(Error::InvalidMemory(self.index_of(address)))
        }
    }
}

/// A byte array of a fixed size behind an address translator.
#[derive(Debug)]
pub struct Memory<F: Fn(u16) -> (usize, bool)> {
    data: Vec<u8>,
    size: usize,
    memory_mapper: F,
}

impl<F: Fn(u16) -> (usize, bool)> Memory<F> {
    #[verifier::type_invariant]
    spec fn well_formed(self) -> bool {
        &&& self.data@.len() == self.size
        &&& is_address_map(self.memory_mapper)
    }

    /// The bytes held and the function of the translator.
    pub closed spec fn view(&self) -> MemoryModel {
        MemoryModel { cells: self.data@, map: translation(self.memory_mapper) }
    }

    /// The translator that this memory was made with.
    pub closed spec fn mapper(&self) -> F {
        self.memory_mapper
    }

    /// A memory of `size` zero bytes behind `memory_mapper`, which must accept
    /// every address and be a function of it.
    pub fn new(size: usize, memory_mapper: F) -> (memory: Self)
        requires
            is_address_map(memory_mapper),
        ensures
            memory@.cells == Seq::new(size as nat, |i: int| 0u8),
            memory@.map == translation(memory_mapper),
            memory.mapper() == memory_mapper,
    {
        let memory = Self { data: vec![0; size], size, memory_mapper };
        assert(memory.data@ =~= Seq::new(size as nat, |i: int| 0u8));
        memory
    }

    /// Translates `address` as the memory's translator does.
    pub fn translate(&self, address: u16) -> (answer: (usize, bool))
        ensures
            answer == (self@.map)(address),
            call_ensures(self.mapper(), (address,), answer),
    {
        proof {
            use_type_invariant(self);
        }
        (self.memory_mapper)(address)
    }

    /// Copies an image into the memory, from the index of `address` on.
    pub fn load_rom(&mut self, rom: &[u8], address: u16) -> (outcome: Result<(), Error>)
        ensures
            outcome == (match old(self)@.load_rom(rom@, address) {
                Ok(_) => Ok::<(), Error>(()),
                Err(error) => Err(error),
            }),
            final(self)@ == (match old(self)@.load_rom(rom@, address) {
                Ok(loaded) => loaded,
                Err(_) => old(self)@,
            }),
            final(self).mapper() == old(self).mapper(),
    {
        proof {
            use_type_invariant(&*self);
        }
        let (start, _) = self.translate(address);
        let space_left = if start <= self.size {
            self.size - start
        } else {
            0
        };
        if start > self.size || rom.len() > space_left {
            return Err(Error::RomSize { rom_size: rom.len(), space_left });
        }
        let mut i: usize = 0;
        while i < rom.len()
            invariant
                i <= rom@.len(),
                start + rom@.len() <= self.size,
                self.data@.len() == self.size,
                old(self).data@.len() == self.size,
                self.memory_mapper == old(self).memory_mapper,
                is_address_map(self.memory_mapper),
                forall|k: int| 0 <= k < start ==> self.data@[k] == old(self).data@[k],
                forall|k: int| start <= k < start + i ==> self.data@[k] == rom@[k - start],
                forall|k: int| start + i <= k < self.size ==> self.data@[k] == old(self).data@[k],
            decreases rom@.len() - i,
        {
            self.data[start + i] = rom[i];
            i += 1;
        }
        assert(self@.cells =~= old(self)@.load_rom(rom@, address)->Ok_0.cells);
        Ok(())
    }

    /// The byte at `address`.
    pub fn read(&self, address: u16) -> (outcome: Result<u8, Error>)
        ensures
            outcome == self@.read(address),
    {
        proof {
            use_type_invariant(self);
        }
        let (address, _) = self.translate(address);
        if address >= self.size {
            return Err(Error::InvalidMemory(address));
        }
        Ok(self.data[address])
    }

    /// A mutable reference to the cell at `address`, under the conditions
    /// of a write.
    pub fn read_mut(&mut self, address: u16) -> (outcome: Result<&mut u8, Error>)
        ensures
            outcome is Ok == old(self)@.writable(address),
            outcome matches Ok(cell) ==> {
                &&& *cell == old(self)@.cells[old(self)@.index_of(address) as int]
                &&& final(self)@ == old(self)@.store(address, *final(cell))
            },
            outcome matches Err(error) ==> {
                &&& error == Error::InvalidMemory(old(self)@.index_of(address))
                &&& final(self)@ == old(self)@
            },
            final(self).mapper() == old(self).mapper(),
    {
        proof {
            use_type_invariant(&*self);
        }
        let (address, is_rom) = self.translate(address);

        if (address >= self.size) || is_rom {
            return Err(Error::InvalidMemory(address));
        }
        Ok(&mut self.data[address])
    }

    /// What `write` would answer for `address`, without writing.
    pub fn check_write(&self, address: u16) -> (outcome: Result<(), Error>)
        ensures
            outcome == self@.check_write(address),
    {
        proof {
            use_type_invariant(self);
        }
        let (address, is_rom) = self.translate(address);

        if (address >= self.size) || is_rom {
            return Err(Error::InvalidMemory(address));
        }
        Ok(())
    }

    /// Stores `value` at `address`, unless the cell is read-only or not there.
    pub fn write(&mut self, address: u16, value: u8) -> (outcome: Result<(), Error>)
        ensures
            outcome == old(self)@.check_write(address),
            final(self)@ == (match old(self)@.write(address, value) {
                Ok(written) => written,
                Err(_) => old(self)@,
            }),
            final(self).mapper() == old(self).mapper(),
    {
        proof {
            use_type_invariant(&*self);
        }
        let (address, is_rom) = self.translate(address);

        if (address >= self.size) || is_rom {
            return Err(Error::InvalidMemory(address));
        }
        self.data[address] = value;

        Ok(())
    }

    /// A view of `size` bytes that starts at `address`.
    pub fn memory_slice(&self, address: u16, size: usize) -> (outcome: Result<&[u8], Error>)
        ensures
            outcome is Ok == self@.slice(address, size) is Ok,
            outcome matches Ok(bytes) ==> self@.slice(address, size) == Ok::<Seq<u8>, Error>(
                bytes@,
            ),
            outcome matches Err(error) ==> self@.slice(address, size) == Err::<Seq<u8>, Error>(
                error,
            ),
    {
        proof {
            use_type_invariant(self);
        }
        let (start, _) = self.translate(address);
        if start > self.size || size > self.size - start {
            return Err(Error::InvalidMemory(start));
        }
        Ok(slice_subrange(self.data.as_slice(), start, start + size))
    }
}

impl<F: Fn(u16) -> (usize, bool) + Copy> Clone for Memory<F> {
    fn clone(&self) -> (copy: Self)
        ensures
            copy@ == self@,
            copy.mapper() == self.mapper(),
    {
        proof {
            use_type_invariant(self);
        }
        let data = self.data.clone();
        assert(data@ =~= self.data@);
        Self { data, size: self.size, memory_mapper: self.memory_mapper }
    }
}

} // verus!
