//! The meaning of the instruction set: what one instruction does to the
//! registers and the memory, and how many cycles it takes.

use crate::alu::{
    accumulate, decimal_adjust, decrement, increment, rotate_left, rotate_left_through_carry,
    rotate_right, rotate_right_through_carry, wide_sum, AluOp,
};
use crate::errors::Error;
use crate::helpers::{high_byte_of, low_byte_of, word_of};
use crate::instruction::{decode, length_of, Instruction};
use crate::memory::MemoryModel;
use crate::port::PortAccess;
use crate::registers::{Flags, Operand, RegPair, Registers, StackPair};
use vstd::prelude::*;

verus! {

/// `word + distance`, wrapped into 16 bits. `distance` is a few bytes up
/// or down, never a whole turn.
pub open spec fn offset(word: u16, distance: int) -> u16 {
    let moved = word as int + distance;
    if moved > 65535 {
        (moved - 65536) as u16
    } else if moved < 0 {
        (moved + 65536) as u16
    } else {
        moved as u16
    }
}

/// The state of a processor: its registers, its memory, and whether an
/// image has been loaded.
pub struct Machine {
    pub regs: Registers,
    pub rom_loaded: bool,
    pub mem: MemoryModel,
}

impl Machine {
    pub open spec fn with_regs(self, regs: Registers) -> Machine {
        Machine { regs, ..self }
    }

    pub open spec fn with_mem(self, mem: MemoryModel) -> Machine {
        Machine { mem, ..self }
    }

    pub open spec fn with_pc(self, pc: u16) -> Machine {
        self.with_regs(Registers { pc, ..self.regs })
    }

    pub open spec fn with_a(self, a: u8) -> Machine {
        self.with_regs(Registers { a, ..self.regs })
    }

    pub open spec fn with_flags(self, flags: Flags) -> Machine {
        self.with_regs(Registers { flags, ..self.regs })
    }

    // ------------------------------------------------------------------
    // Fetching
    // ------------------------------------------------------------------
    /// The byte `distance` above the program counter.
    pub open spec fn code_byte(self, distance: int) -> Result<u8, Error> {
        self.mem.read(offset(self.regs.pc, distance))
    }

    /// The instruction at the program counter: its opcode, then as many
    /// immediate bytes as the opcode asks for, read in that order.
    pub open spec fn fetch(self) -> Result<Instruction, Error> {
        if !self.rom_loaded {
            Err(Error::RomNotLoaded)
        } else {
            match self.code_byte(0) {
                Err(error) => Err(error),
                Ok(opcode) => if decode(opcode, 0, 0) is None {
                    Err(Error::UnknownOpcode(opcode))
                } else if length_of(opcode) == 1 {
                    Ok(decode(opcode, 0, 0)->Some_0)
                } else {
                    match self.code_byte(1) {
                        Err(error) => Err(error),
                        Ok(low_byte) => if length_of(opcode) == 2 {
                            Ok(decode(opcode, low_byte, 0)->Some_0)
                        } else {
                            match self.code_byte(2) {
                                Err(error) => Err(error),
                                Ok(high_byte) => Ok(decode(opcode, low_byte, high_byte)->Some_0),
                            }
                        },
                    }
                },
            }
        }
    }

    // ------------------------------------------------------------------
    // Operands
    // ------------------------------------------------------------------
    /// The byte that an operand holds: a register, or for `M` the cell
    /// at `HL`.
    pub open spec fn load(self, operand: Operand) -> Result<u8, Error> {
        match operand {
            Operand::M => self.mem.read(self.regs.hl()),
            _ => Ok(self.regs.byte(operand)),
        }
    }

    /// The state with `value` in an operand.
    pub open spec fn store(self, operand: Operand, value: u8) -> Result<Machine, Error> {
        match operand {
            Operand::M => match self.mem.write(self.regs.hl(), value) {
                Err(error) => Err(error),
                Ok(mem) => Ok(self.with_mem(mem)),
            },
            _ => Ok(self.with_regs(self.regs.with_byte(operand, value))),
        }
    }

    /// The byte of an operand that is about to be changed in place: for
    /// `M` the cell at `HL` must take a write.
    pub open spec fn load_for_update(self, operand: Operand) -> Result<u8, Error> {
        match operand {
            Operand::M => match self.mem.check_write(self.regs.hl()) {
                Err(error) => Err(error),
                Ok(_) => self.mem.read(self.regs.hl()),
            },
            _ => Ok(self.regs.byte(operand)),
        }
    }

    // ------------------------------------------------------------------
    // Words in memory and the stack
    // ------------------------------------------------------------------
    /// The word at `address`: its low byte there, its high byte one above.
    pub open spec fn read_word(self, address: u16) -> Result<u16, Error> {
        match self.mem.read(address) {
            Err(error) => Err(error),
            Ok(low) => match self.mem.read(offset(address, 1)) {
                Err(error) => Err(error),
                Ok(high) => Ok(word_of(low, high)),
            },
        }
    }

    /// The memory with `word` at `address`, provided both cells take a
    /// write; the cell at `address` is asked first.
    pub open spec fn write_word(self, address: u16, word: u16) -> Result<MemoryModel, Error> {
        match self.mem.check_write(address) {
            Err(error) => Err(error),
            Ok(_) => match self.mem.check_write(offset(address, 1)) {
                Err(error) => Err(error),
                Ok(_) => Ok(
                    self.mem.store(address, low_byte_of(word)).store(
                        offset(address, 1),
                        high_byte_of(word),
                    ),
                ),
            },
        }
    }

    /// The state after `word` went onto the stack: high byte at `SP - 1`,
    /// low byte at `SP - 2`, and `SP` lowered by 2. Both cells must take
    /// a write, the upper one is asked first; else nothing changes.
    pub open spec fn push(self, word: u16) -> Result<Machine, Error> {
        let upper = offset(self.regs.sp, -1);
        let lower = offset(self.regs.sp, -2);
        match self.mem.check_write(upper) {
            Err(error) => Err(error),
            Ok(_) => match self.mem.check_write(lower) {
                Err(error) => Err(error),
                Ok(_) => Ok(
                    Machine {
                        regs: Registers { sp: lower, ..self.regs },
                        mem: self.mem.store(upper, high_byte_of(word)).store(
                            lower,
                            low_byte_of(word),
                        ),
                        ..self
                    },
                ),
            },
        }
    }

    /// The word on top of the stack, and the state with `SP` raised by 2.
    pub open spec fn pop(self) -> Result<(Machine, u16), Error> {
        match self.read_word(self.regs.sp) {
            Err(error) => Err(error),
            Ok(word) => Ok(
                (self.with_regs(Registers { sp: offset(self.regs.sp, 2), ..self.regs }), word),
            ),
        }
    }

    // ------------------------------------------------------------------
    // Instructions that step over their own bytes
    // ------------------------------------------------------------------
    /// `MOV d,s`.
    pub open spec fn mov(self, destination: Operand, source: Operand) -> Result<Machine, Error> {
        match self.load(source) {
            Err(error) => Err(error),
            Ok(value) => self.store(destination, value),
        }
    }

    /// `LDA` and `LDAX`: `A` is loaded from `address`.
    pub open spec fn lda(self, address: u16) -> Result<Machine, Error> {
        match self.mem.read(address) {
            Err(error) => Err(error),
            Ok(value) => Ok(self.with_a(value)),
        }
    }

    /// `STA` and `STAX`: `A` is stored at `address`.
    pub open spec fn sta(self, address: u16) -> Result<Machine, Error> {
        match self.mem.write(address, self.regs.a) {
            Err(error) => Err(error),
            Ok(mem) => Ok(self.with_mem(mem)),
        }
    }

    /// `LHLD`: `HL` is loaded from the word at `address`.
    pub open spec fn lhld(self, address: u16) -> Result<Machine, Error> {
        match self.read_word(address) {
            Err(error) => Err(error),
            Ok(word) => Ok(self.with_regs(self.regs.with_pair(RegPair::HL, word))),
        }
    }

    /// `SHLD`: `HL` is stored as the word at `address`.
    pub open spec fn shld(self, address: u16) -> Result<Machine, Error> {
        match self.write_word(address, self.regs.hl()) {
            Err(error) => Err(error),
            Ok(mem) => Ok(self.with_mem(mem)),
        }
    }

    /// `XCHG`: `HL` and `DE` change places.
    pub open spec fn xchg(self) -> Machine {
        self.with_regs(
            Registers {
                d: self.regs.h,
                e: self.regs.l,
                h: self.regs.d,
                l: self.regs.e,
                ..self.regs
            },
        )
    }

    /// An accumulator operation with `x` as its second operand.
    pub open spec fn alu(self, op: AluOp, x: u8) -> Machine {
        let result = accumulate(op, self.regs.a, x, self.regs.flags);
        self.with_regs(Registers { a: result.value, flags: result.flags, ..self.regs })
    }

    /// An accumulator operation on a register or on `M`.
    pub open spec fn alu_operand(self, op: AluOp, source: Operand) -> Result<Machine, Error> {
        match self.load(source) {
            Err(error) => Err(error),
            Ok(x) => Ok(self.alu(op, x)),
        }
    }

    /// `INR`: the operand goes up by one; the carry stays.
    pub open spec fn inr(self, operand: Operand) -> Result<Machine, Error> {
        match self.load_for_update(operand) {
            Err(error) => Err(error),
            Ok(value) => {
                let result = increment(value, self.regs.flags);
                self.with_flags(result.flags).store(operand, result.value)
            },
        }
    }

    /// `DCR`: the operand goes down by one; the carry stays.
    pub open spec fn dcr(self, operand: Operand) -> Result<Machine, Error> {
        match self.load_for_update(operand) {
            Err(error) => Err(error),
            Ok(value) => {
                let result = decrement(value, self.regs.flags);
                self.with_flags(result.flags).store(operand, result.value)
            },
        }
    }

    /// `INX`: the pair goes up by one; no flag changes.
    pub open spec fn inx(self, pair: RegPair) -> Machine {
        self.with_regs(self.regs.with_pair(pair, offset(self.regs.pair(pair), 1)))
    }

    /// `DCX`: the pair goes down by one; no flag changes.
    pub open spec fn dcx(self, pair: RegPair) -> Machine {
        self.with_regs(self.regs.with_pair(pair, offset(self.regs.pair(pair), -1)))
    }

    /// `DAD`: the pair is added to `HL`; only the carry changes.
    pub open spec fn dad(self, pair: RegPair) -> Machine {
        let (word, carry) = wide_sum(self.regs.hl(), self.regs.pair(pair));
        self.with_regs(
            Registers {
                flags: Flags { cy: carry, ..self.regs.flags },
                ..self.regs.with_pair(RegPair::HL, word)
            },
        )
    }

    pub open spec fn daa(self) -> Machine {
        let result = decimal_adjust(self.regs.a, self.regs.flags);
        self.with_regs(Registers { a: result.value, flags: result.flags, ..self.regs })
    }

    pub open spec fn rlc(self) -> Machine {
        let result = rotate_left(self.regs.a, self.regs.flags);
        self.with_regs(Registers { a: result.value, flags: result.flags, ..self.regs })
    }

    pub open spec fn rrc(self) -> Machine {
        let result = rotate_right(self.regs.a, self.regs.flags);
        self.with_regs(Registers { a: result.value, flags: result.flags, ..self.regs })
    }

    pub open spec fn ral(self) -> Machine {
        let result = rotate_left_through_carry(self.regs.a, self.regs.flags);
        self.with_regs(Registers { a: result.value, flags: result.flags, ..self.regs })
    }

    pub open spec fn rar(self) -> Machine {
        let result = rotate_right_through_carry(self.regs.a, self.regs.flags);
        self.with_regs(Registers { a: result.value, flags: result.flags, ..self.regs })
    }

    pub open spec fn cma(self) -> Machine {
        self.with_a((255 - self.regs.a) as u8)
    }

    pub open spec fn cmc(self) -> Machine {
        self.with_flags(Flags { cy: !self.regs.flags.cy, ..self.regs.flags })
    }

    pub open spec fn stc(self) -> Machine {
        self.with_flags(Flags { cy: true, ..self.regs.flags })
    }

    /// `PUSH`.
    pub open spec fn push_pair(self, pair: StackPair) -> Result<Machine, Error> {
        self.push(self.regs.stack_pair(pair))
    }

    /// `POP`.
    pub open spec fn pop_pair(self, pair: StackPair) -> Result<Machine, Error> {
        match self.pop() {
            Err(error) => Err(error),
            Ok((popped, word)) => Ok(
                popped.with_regs(popped.regs.with_stack_pair(pair, word)),
            ),
        }
    }

    /// `XTHL`: `HL` and the word on top of the stack change places. Both
    /// cells must be there and take a write; else nothing changes.
    pub open spec fn xthl(self) -> Result<Machine, Error> {
        match self.read_word(self.regs.sp) {
            Err(error) => Err(error),
            Ok(word) => match self.write_word(self.regs.sp, self.regs.hl()) {
                Err(error) => Err(error),
                Ok(mem) => Ok(
                    Machine { regs: self.regs.with_pair(RegPair::HL, word), mem, ..self },
                ),
            },
        }
    }

    /// `SPHL`: the stack pointer is loaded from `HL`.
    pub open spec fn sphl(self) -> Machine {
        self.with_regs(Registers { sp: self.regs.hl(), ..self.regs })
    }

    /// `EI` and `DI`.
    pub open spec fn with_interrupts(self, enabled: bool) -> Machine {
        self.with_regs(Registers { interrupts_enabled: enabled, ..self.regs })
    }

    /// What an instruction does that neither is a transfer nor reads a
    /// port, but for stepping the program counter.
    #[verifier::opaque]
    pub open spec fn effect(self, instruction: Instruction) -> Result<Machine, Error> {
        match instruction {
            Instruction::Hlt => Err(Error::SystemHalt),
            Instruction::Mov(destination, source) => self.mov(destination, source),
            Instruction::Mvi(destination, value) => self.store(destination, value),
            Instruction::Lxi(pair, word) => Ok(self.with_regs(self.regs.with_pair(pair, word))),
            Instruction::Lda(address) => self.lda(address),
            Instruction::Sta(address) => self.sta(address),
            Instruction::Lhld(address) => self.lhld(address),
            Instruction::Shld(address) => self.shld(address),
            Instruction::Ldax(pair) => self.lda(self.regs.pair(pair)),
            Instruction::Stax(pair) => self.sta(self.regs.pair(pair)),
            Instruction::Xchg => Ok(self.xchg()),
            Instruction::Alu(op, source) => self.alu_operand(op, source),
            Instruction::AluImmediate(op, x) => Ok(self.alu(op, x)),
            Instruction::Inr(operand) => self.inr(operand),
            Instruction::Dcr(operand) => self.dcr(operand),
            Instruction::Inx(pair) => Ok(self.inx(pair)),
            Instruction::Dcx(pair) => Ok(self.dcx(pair)),
            Instruction::Dad(pair) => Ok(self.dad(pair)),
            Instruction::Daa => Ok(self.daa()),
            Instruction::Rlc => Ok(self.rlc()),
            Instruction::Rrc => Ok(self.rrc()),
            Instruction::Ral => Ok(self.ral()),
            Instruction::Rar => Ok(self.rar()),
            Instruction::Cma => Ok(self.cma()),
            Instruction::Cmc => Ok(self.cmc()),
            Instruction::Stc => Ok(self.stc()),
            Instruction::Push(pair) => self.push_pair(pair),
            Instruction::Pop(pair) => self.pop_pair(pair),
            Instruction::Xthl => self.xthl(),
            Instruction::Sphl => Ok(self.sphl()),
            Instruction::Ei => Ok(self.with_interrupts(true)),
            Instruction::Di => Ok(self.with_interrupts(false)),
            _ => Ok(self),
        }
    }

    // ------------------------------------------------------------------
    // Transfers of control
    // ------------------------------------------------------------------
    /// `CALL`: the address of the next instruction goes onto the stack.
    pub open spec fn call(self, target: u16) -> Result<Machine, Error> {
        match self.push(offset(self.regs.pc, 3)) {
            Err(error) => Err(error),
            Ok(pushed) => Ok(pushed.with_pc(target)),
        }
    }

    /// `RET`: the program counter is popped.
    pub open spec fn ret(self) -> Result<Machine, Error> {
        match self.pop() {
            Err(error) => Err(error),
            Ok((popped, word)) => Ok(popped.with_pc(word)),
        }
    }

    /// A conditional call: a call where `taken` holds, else a step over
    /// the three bytes of the instruction.
    pub open spec fn call_if(self, taken: bool, target: u16) -> Result<Machine, Error> {
        if taken {
            self.call(target)
        } else {
            Ok(self.with_pc(offset(self.regs.pc, 3)))
        }
    }

    /// A conditional return: a return where `taken` holds, else a step
    /// over the instruction.
    pub open spec fn ret_if(self, taken: bool) -> Result<Machine, Error> {
        if taken {
            self.ret()
        } else {
            Ok(self.with_pc(offset(self.regs.pc, 1)))
        }
    }

    /// `RST n`: a call to address `8 * n` in one byte.
    pub open spec fn rst(self, n: u8) -> Result<Machine, Error> {
        match self.push(offset(self.regs.pc, 1)) {
            Err(error) => Err(error),
            Ok(pushed) => Ok(pushed.with_pc((8 * n) as u16)),
        }
    }

    /// The state with the program counter at `target` where `taken`
    /// holds, and `length` above where it was where not.
    pub open spec fn jump(self, taken: bool, target: u16, length: int) -> Machine {
        if taken {
            self.with_pc(target)
        } else {
            self.with_pc(offset(self.regs.pc, length))
        }
    }

    /// What a transfer does, the program counter included.
    #[verifier::opaque]
    pub open spec fn transfer(self, instruction: Instruction) -> Result<Machine, Error> {
        match instruction {
            Instruction::Jmp(target) => Ok(self.with_pc(target)),
            Instruction::Jcc(condition, target) => Ok(
                self.jump(self.regs.holds(condition), target, 3),
            ),
            Instruction::Call(target) => self.call(target),
            Instruction::Ccc(condition, target) => self.call_if(
                self.regs.holds(condition),
                target,
            ),
            Instruction::Ret => self.ret(),
            Instruction::Rcc(condition) => self.ret_if(self.regs.holds(condition)),
            Instruction::Rst(n) => self.rst(n),
            Instruction::Pchl => Ok(self.with_pc(self.regs.hl())),
            _ => Ok(self),
        }
    }

    /// Where a transfer that completes leaves the program counter.
    pub open spec fn target(self, instruction: Instruction) -> u16 {
        match instruction {
            Instruction::Jmp(target) | Instruction::Call(target) => target,
            Instruction::Jcc(condition, target) | Instruction::Ccc(condition, target) => if self.regs.holds(
                condition,
            ) {
                target
            } else {
                offset(self.regs.pc, 3)
            },
            Instruction::Ret => self.read_word(self.regs.sp)->Ok_0,
            Instruction::Rcc(condition) => if self.regs.holds(condition) {
                self.read_word(self.regs.sp)->Ok_0
            } else {
                offset(self.regs.pc, 1)
            },
            Instruction::Rst(n) => (8 * n) as u16,
            Instruction::Pchl => self.regs.hl(),
            _ => offset(self.regs.pc, instruction.length()),
        }
    }

    // ------------------------------------------------------------------
    // One instruction
    // ------------------------------------------------------------------
    /// What `instruction` does to this state. `input` is the byte that
    /// the ports give to `IN`.
    pub open spec fn perform(self, instruction: Instruction, input: u8) -> Result<Machine, Error> {
        if instruction is In {
            Ok(self.with_a(input).with_pc(offset(self.regs.pc, 2)))
        } else if instruction.is_transfer() {
            self.transfer(instruction)
        } else {
            match self.effect(instruction) {
                Err(error) => Err(error),
                Ok(next) => Ok(next.with_pc(offset(self.regs.pc, instruction.length()))),
            }
        }
    }

    /// The cycles that `instruction` takes in this state. A halt, which
    /// never completes, counts none.
    pub open spec fn cycles(self, instruction: Instruction) -> u32 {
        match instruction {
            Instruction::Nop => 4,
            Instruction::Hlt => 0,
            Instruction::Mov(destination, source) => if destination is M || source is M {
                7
            } else {
                5
            },
            Instruction::Mvi(destination, _) => if destination is M {
                10
            } else {
                7
            },
            Instruction::Lxi(_, _) => 10,
            Instruction::Lda(_) | Instruction::Sta(_) => 13,
            Instruction::Lhld(_) | Instruction::Shld(_) => 16,
            Instruction::Ldax(_) | Instruction::Stax(_) => 7,
            Instruction::Xchg => 5,
            Instruction::Alu(_, source) => if source is M {
                7
            } else {
                4
            },
            Instruction::AluImmediate(_, _) => 7,
            Instruction::Inr(operand) | Instruction::Dcr(operand) => if operand is M {
                10
            } else {
                5
            },
            Instruction::Inx(_) | Instruction::Dcx(_) => 5,
            Instruction::Dad(_) => 10,
            Instruction::Daa
            | Instruction::Rlc
            | Instruction::Rrc
            | Instruction::Ral
            | Instruction::Rar
            | Instruction::Cma
            | Instruction::Cmc
            | Instruction::Stc => 4,
            Instruction::Jmp(_) | Instruction::Jcc(_, _) => 10,
            Instruction::Call(_) => 17,
            Instruction::Ccc(condition, _) => if self.regs.holds(condition) {
                17
            } else {
                11
            },
            Instruction::Ret => 10,
            Instruction::Rcc(condition) => if self.regs.holds(condition) {
                11
            } else {
                5
            },
            Instruction::Rst(_) => 11,
            Instruction::Pchl => 5,
            Instruction::Push(_) => 11,
            Instruction::Pop(_) => 10,
            Instruction::Xthl => 18,
            Instruction::Sphl => 5,
            Instruction::In(_) | Instruction::Out(_) => 10,
            Instruction::Ei | Instruction::Di => 4,
        }
    }

    /// The state after the instruction at the program counter, or the
    /// error that it ends in.
    pub open spec fn step(self, input: u8) -> Result<Machine, Error> {
        match self.fetch() {
            Err(error) => Err(error),
            Ok(instruction) => self.perform(instruction, input),
        }
    }

    /// The state that one step leaves: the next one, or this one where
    /// the step ends in an error.
    pub open spec fn after_step(self, input: u8) -> Machine {
        match self.step(input) {
            Ok(next) => next,
            Err(_) => self,
        }
    }

    /// What one step reports: the cycles taken, or the error.
    pub open spec fn step_outcome(self, input: u8) -> Result<u32, Error> {
        match self.step(input) {
            Ok(_) => Ok(self.cycles(self.fetch()->Ok_0)),
            Err(error) => Err(error),
        }
    }

    /// What the instruction at the program counter asks of the ports.
    pub open spec fn port_access(self) -> PortAccess {
        match self.fetch() {
            Ok(Instruction::In(port_num)) => PortAccess::Read(port_num),
            Ok(Instruction::Out(port_num)) => PortAccess::Write(port_num, self.regs.a),
            _ => PortAccess::Idle,
        }
    }

    /// The state after interrupt `n` was offered: with interrupts enabled
    /// they are disabled, the program counter goes onto the stack and
    /// execution continues at `8 * (n mod 8)`; else nothing changes.
    pub open spec fn interrupt(self, n: u8) -> Result<Machine, Error> {
        if !self.regs.interrupts_enabled {
            Ok(self)
        } else {
            match self.push(self.regs.pc) {
                Err(error) => Err(error),
                Ok(pushed) => Ok(
                    pushed.with_regs(
                        Registers {
                            pc: (8 * (n as int % 8)) as u16,
                            interrupts_enabled: false,
                            ..pushed.regs
                        },
                    ),
                ),
            }
        }
    }
}

/// Storing a byte and setting the flags can be done in either order.
pub proof fn lemma_store_then_flags(machine: Machine, operand: Operand, value: u8, flags: Flags)
    ensures
        machine.with_flags(flags).store(operand, value) == (match machine.store(operand, value) {
            Ok(stored) => Ok::<Machine, Error>(stored.with_flags(flags)),
            Err(error) => Err(error),
        }),
{
}

/// What a run of instructions makes of a state, one step for each byte of
/// `inputs`, which is what the ports give to that step: the state after the
/// last step and the cycles taken in all, or the error of the first step
/// that fails.
pub open spec fn run(machine: Machine, inputs: Seq<u8>) -> Result<(Machine, int), Error>
    decreases inputs.len(),
{
    if inputs.len() == 0 {
        Ok((machine, 0))
    } else {
        match run(machine, inputs.drop_last()) {
            Err(error) => Err(error),
            Ok((reached, cycles)) => match reached.step_outcome(inputs.last()) {
                Err(error) => Err(error),
                Ok(more) => Ok((reached.after_step(inputs.last()), cycles + more)),
            },
        }
    }
}

/// A step that completes takes from 4 to 18 cycles.
pub proof fn lemma_cycles_of_a_step(machine: Machine, input: u8)
    ensures
        machine.step_outcome(input) is Ok ==> 4 <= machine.step_outcome(input)->Ok_0 <= 18,
{
    reveal(Machine::effect);
}

} // verus!
