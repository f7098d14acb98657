//! Fetching, decoding and dispatching one instruction.

use super::Processor;
use crate::errors::Error;
use crate::instruction::Instruction;
use crate::machine::Machine;
use crate::port::{reads, Port, PortAccess};
use vstd::prelude::*;

verus! {

/// The opcodes of loads and stores, `MOV` apart.
pub open spec fn is_load_store_opcode(opcode: u8) -> bool {
    ||| opcode == 0x01
    ||| opcode == 0x02
    ||| opcode == 0x06
    ||| opcode == 0x0A
    ||| opcode == 0x0E
    ||| opcode == 0x11
    ||| opcode == 0x12
    ||| opcode == 0x16
    ||| opcode == 0x1A
    ||| opcode == 0x1E
    ||| opcode == 0x21
    ||| opcode == 0x22
    ||| opcode == 0x26
    ||| opcode == 0x2A
    ||| opcode == 0x2E
    ||| opcode == 0x31
    ||| opcode == 0x32
    ||| opcode == 0x36
    ||| opcode == 0x3A
    ||| opcode == 0x3E
    ||| opcode == 0xEB
}

/// The opcodes of `NOP` and of the instructions of one byte that compute in place.
pub open spec fn is_arithmetic_opcode(opcode: u8) -> bool {
    ||| opcode == 0x00
    ||| opcode == 0x03
    ||| opcode == 0x04
    ||| opcode == 0x05
    ||| opcode == 0x07
    ||| opcode == 0x09
    ||| opcode == 0x0B
    ||| opcode == 0x0C
    ||| opcode == 0x0D
    ||| opcode == 0x0F
    ||| opcode == 0x13
    ||| opcode == 0x14
    ||| opcode == 0x15
    ||| opcode == 0x17
    ||| opcode == 0x19
    ||| opcode == 0x1B
    ||| opcode == 0x1C
    ||| opcode == 0x1D
    ||| opcode == 0x1F
    ||| opcode == 0x23
    ||| opcode == 0x24
    ||| opcode == 0x25
    ||| opcode == 0x27
    ||| opcode == 0x29
    ||| opcode == 0x2B
    ||| opcode == 0x2C
    ||| opcode == 0x2D
    ||| opcode == 0x2F
    ||| opcode == 0x33
    ||| opcode == 0x34
    ||| opcode == 0x35
    ||| opcode == 0x37
    ||| opcode == 0x39
    ||| opcode == 0x3B
    ||| opcode == 0x3C
    ||| opcode == 0x3D
    ||| opcode == 0x3F
}

/// The opcodes of the accumulator group with an immediate byte.
pub open spec fn is_immediate_opcode(opcode: u8) -> bool {
    ||| opcode == 0xC6
    ||| opcode == 0xCE
    ||| opcode == 0xD6
    ||| opcode == 0xDE
    ||| opcode == 0xE6
    ||| opcode == 0xEE
    ||| opcode == 0xF6
    ||| opcode == 0xFE
}

/// The opcodes of jumps and calls.
pub open spec fn is_jump_opcode(opcode: u8) -> bool {
    ||| opcode == 0xC2
    ||| opcode == 0xC3
    ||| opcode == 0xC4
    ||| opcode == 0xCA
    ||| opcode == 0xCC
    ||| opcode == 0xCD
    ||| opcode == 0xD2
    ||| opcode == 0xD4
    ||| opcode == 0xDA
    ||| opcode == 0xDC
    ||| opcode == 0xE2
    ||| opcode == 0xE4
    ||| opcode == 0xEA
    ||| opcode == 0xEC
    ||| opcode == 0xF2
    ||| opcode == 0xF4
    ||| opcode == 0xFA
    ||| opcode == 0xFC
}

/// The opcodes of returns, restarts and `PCHL`.
pub open spec fn is_return_opcode(opcode: u8) -> bool {
    ||| opcode == 0xC0
    ||| opcode == 0xC7
    ||| opcode == 0xC8
    ||| opcode == 0xC9
    ||| opcode == 0xCF
    ||| opcode == 0xD0
    ||| opcode == 0xD7
    ||| opcode == 0xD8
    ||| opcode == 0xDF
    ||| opcode == 0xE0
    ||| opcode == 0xE7
    ||| opcode == 0xE8
    ||| opcode == 0xE9
    ||| opcode == 0xEF
    ||| opcode == 0xF0
    ||| opcode == 0xF7
    ||| opcode == 0xF8
    ||| opcode == 0xFF
}

/// The opcodes of the stack, the ports and the interrupt switch.
pub open spec fn is_stack_opcode(opcode: u8) -> bool {
    ||| opcode == 0xC1
    ||| opcode == 0xC5
    ||| opcode == 0xD1
    ||| opcode == 0xD3
    ||| opcode == 0xD5
    ||| opcode == 0xDB
    ||| opcode == 0xE1
    ||| opcode == 0xE3
    ||| opcode == 0xE5
    ||| opcode == 0xF1
    ||| opcode == 0xF3
    ||| opcode == 0xF5
    ||| opcode == 0xF9
    ||| opcode == 0xFB
}

impl<F: Fn(u16) -> (usize, bool)> Processor<F> {
    /// What the instruction at the program counter asks of the ports.
    pub fn port_access(&self) -> (access: PortAccess)
        ensures
            access == self@.port_access(),
    {
        if !self.rom_loaded {
            return PortAccess::Idle;
        }
        match self.ram.read(self.regs.pc) {
            Ok(0xDB) => match self.get_next_byte() {
                Ok(num) => PortAccess::Read(num),
                Err(_) => PortAccess::Idle,
            },
            Ok(0xD3) => match self.get_next_byte() {
                Ok(num) => PortAccess::Write(num, self.regs.a),
                Err(_) => PortAccess::Idle,
            },
            _ => PortAccess::Idle,
        }
    }

    /// Executes the instruction at the program counter and reports the
    /// cycles it took. An `IN` reads its port with `read_in` and takes the
    /// byte that it gives; an `OUT` hands its port and `A` to `write_out`
    /// once the instruction is done; any other instruction leaves the ports
    /// alone. Where the instruction ends in an error, nothing has changed
    /// and no port was touched.
    pub fn execute<P: Port>(&mut self, port: &mut P) -> (outcome: Result<u32, Error>)
        ensures
            match old(self)@.port_access() {
                PortAccess::Read(num) => exists|input: u8|
                    reads(*old(port), num, input) && final(self)@ == old(self)@.after_step(input)
                        && outcome == old(self)@.step_outcome(input),
                _ => final(self)@ == old(self)@.after_step(0) && outcome == old(
                    self,
                )@.step_outcome(0),
            },
            match old(self)@.port_access() {
                PortAccess::Write(num, value) => exists|handed: &mut P|
                    mut_ref_current(handed) == *old(port)
                        && mut_ref_future(handed) == *final(port)
                        && call_ensures(P::write_out, (handed, num, value), ()),
                _ => *final(port) == *old(port),
            },
            final(self).mapper() == old(self).mapper(),
    {
        let access = self.port_access();
        let input = match access {
            PortAccess::Read(num) => Self::in_opcode(num, port),
            _ => 0,
        };
        let outcome = self.step(input);
        if let PortAccess::Write(num, value) = access {
            Self::out_opcode(num, value, port);
        }
        outcome
    }

    /// Executes the instruction at the program counter, with `input` as
    /// the byte that an `IN` reads, and reports the cycles it took. Where
    /// it ends in an error, nothing has changed. No port is touched: what
    /// an `OUT` writes is told by `port_access`.
    pub fn step(&mut self, input: u8) -> (outcome: Result<u32, Error>)
        ensures
            final(self)@ == old(self)@.after_step(input),
            outcome == old(self)@.step_outcome(input),
            final(self).mapper() == old(self).mapper(),
    {
        if !self.rom_loaded {
            return Err(Error::RomNotLoaded);
        }
        let opcode: u8 = self.ram.read(self.regs.pc)?;

        match opcode {
            // HLT opcode
            0x76 => {
                proof {
                    assert(self@.effect(Instruction::Hlt) == Err::<Machine, Error>(
                        Error::SystemHalt,
                    )) by {
                        reveal(Machine::effect);
                    }
                }
                Err(Error::SystemHalt)
            },
            // MOV Register to register
            0x40..=0x7F => {
                let cycles = self.mov_opcode(opcode)?;
                self.regs.pc = self.regs.pc.wrapping_add(1);
                Ok(cycles)
            },
            0x80..=0xBF => self.execute_accumulator(opcode),
            0x01 | 0x02 | 0x06 | 0x0A | 0x0E | 0x11 | 0x12 | 0x16 | 0x1A | 0x1E | 0x21
            | 0x22 | 0x26 | 0x2A | 0x2E | 0x31 | 0x32 | 0x36 | 0x3A | 0x3E | 0xEB
            => self.execute_load_store(opcode),
            0x00 | 0x03 | 0x04 | 0x05 | 0x07 | 0x09 | 0x0B | 0x0C | 0x0D | 0x0F | 0x13
            | 0x14 | 0x15 | 0x17 | 0x19 | 0x1B | 0x1C | 0x1D | 0x1F | 0x23 | 0x24 | 0x25
            | 0x27 | 0x29 | 0x2B | 0x2C | 0x2D | 0x2F | 0x33 | 0x34 | 0x35 | 0x37 | 0x39
            | 0x3B | 0x3C | 0x3D | 0x3F => self.execute_arithmetic(opcode),
            0xC6 | 0xCE | 0xD6 | 0xDE | 0xE6 | 0xEE | 0xF6 | 0xFE => self.execute_immediate(opcode),
            0xC2 | 0xC3 | 0xC4 | 0xCA | 0xCC | 0xCD | 0xD2 | 0xD4 | 0xDA | 0xDC | 0xE2
            | 0xE4 | 0xEA | 0xEC | 0xF2 | 0xF4 | 0xFA | 0xFC => self.execute_jump(opcode),
            0xC0 | 0xC7 | 0xC8 | 0xC9 | 0xCF | 0xD0 | 0xD7 | 0xD8 | 0xDF | 0xE0 | 0xE7
            | 0xE8 | 0xE9 | 0xEF | 0xF0 | 0xF7 | 0xF8 | 0xFF => self.execute_return(opcode),
            0xC1 | 0xC5 | 0xD1 | 0xD3 | 0xD5 | 0xDB | 0xE1 | 0xE3 | 0xE5 | 0xF1 | 0xF3
            | 0xF5 | 0xF9 | 0xFB => self.execute_stack(opcode, input),
            // Invalid opcodes
            _ => Err(Error::UnknownOpcode(opcode)),
        }
    }

    /// Loads and stores between registers and memory.
    #[verifier::rlimit(50)]
    fn execute_load_store(&mut self, opcode: u8) -> (outcome: Result<u32, Error>)
        requires
            old(self)@.rom_loaded,
            old(self)@.code_byte(0) == Ok::<u8, Error>(opcode),
            is_load_store_opcode(opcode),
        ensures
            forall|input: u8| final(self)@ == #[trigger] old(self)@.after_step(input),
            forall|input: u8| outcome == #[trigger] old(self)@.step_outcome(input),
            final(self).mapper() == old(self).mapper(),
    {
        let cycles: u32;

        match opcode {
            // MVI opcodes
            0x06 | 0x0E | 0x16 | 0x1E | 0x26 | 0x2E | 0x36 | 0x3E => {
                let data = self.get_next_byte()?;
                cycles = self.mvi_opcode(opcode, data)?;
                self.regs.pc = self.regs.pc.wrapping_add(2);
            },
            // LXI opcodes
            0x01 | 0x11 | 0x21 | 0x31 => {
                let (low_byte, high_byte) = self.get_next_16bit()?;
                self.lxi_opcode(opcode, low_byte, high_byte);
                self.regs.pc = self.regs.pc.wrapping_add(3);
                cycles = 10;
            },
            // LDA opcode
            0x3A => {
                let (low_byte, high_byte) = self.get_next_16bit()?;
                self.lda_opcode(low_byte, high_byte)?;
                self.regs.pc = self.regs.pc.wrapping_add(3);
                cycles = 13;
            },
            // STA opcode
            0x32 => {
                let (low_byte, high_byte) = self.get_next_16bit()?;
                self.sta_opcode(low_byte, high_byte)?;
                self.regs.pc = self.regs.pc.wrapping_add(3);
                cycles = 13;
            },
            // LHLD opcode
            0x2A => {
                let (low_byte, high_byte) = self.get_next_16bit()?;
                self.lhld_opcode(low_byte, high_byte)?;
                self.regs.pc = self.regs.pc.wrapping_add(3);
                cycles = 16;
            },
            // SHLD opcode
            0x22 => {
                let (low_byte, high_byte) = self.get_next_16bit()?;
                self.shld_opcode(low_byte, high_byte)?;
                self.regs.pc = self.regs.pc.wrapping_add(3);
                cycles = 16;
            },
            // LDAX opcode
            0x0A | 0x1A => {
                self.ldax_opcode(opcode)?;
                self.regs.pc = self.regs.pc.wrapping_add(1);
                cycles = 7;
            },
            // Stax
            0x02 | 0x12 => {
                self.stax_opcode(opcode)?;
                self.regs.pc = self.regs.pc.wrapping_add(1);
                cycles = 7;
            },
            // XCHG opcode
            0xEB => {
                self.xchg_opcode();
                self.regs.pc = self.regs.pc.wrapping_add(1);
                cycles = 5;
            },
            _ => {
                return Err(Error::UnknownOpcode(opcode));
            },
        }

        Ok(cycles)
    }

    /// Increments, decrements, the double add, rotations and the other instructions of one byte that compute in place.
    #[verifier::rlimit(50)]
    fn execute_arithmetic(&mut self, opcode: u8) -> (outcome: Result<u32, Error>)
        requires
            old(self)@.rom_loaded,
            old(self)@.code_byte(0) == Ok::<u8, Error>(opcode),
            is_arithmetic_opcode(opcode),
        ensures
            forall|input: u8| final(self)@ == #[trigger] old(self)@.after_step(input),
            forall|input: u8| outcome == #[trigger] old(self)@.step_outcome(input),
            final(self).mapper() == old(self).mapper(),
    {
        let cycles: u32;

        match opcode {
            // NOP opcodes
            0x00 => {
                proof {
                    assert(self@.effect(Instruction::Nop) == Ok::<Machine, Error>(self@)) by {
                        reveal(Machine::effect);
                    }
                }
                self.regs.pc = self.regs.pc.wrapping_add(1);
                cycles = 4;
            },
            // INR opcodes
            0x04 | 0x0C | 0x14 | 0x1C | 0x24 | 0x2C | 0x34 | 0x3C => {
                cycles = self.inr_opcode(opcode)?;
                self.regs.pc = self.regs.pc.wrapping_add(1);
            },
            // DCR opcodes
            0x05 | 0x0D | 0x15 | 0x1D | 0x25 | 0x2D | 0x35 | 0x3D => {
                cycles = self.dcr_opcode(opcode)?;
                self.regs.pc = self.regs.pc.wrapping_add(1);
            },
            // INX opcodes
            0x03 | 0x13 | 0x23 | 0x33 => {
                self.inx_opcode(opcode);
                self.regs.pc = self.regs.pc.wrapping_add(1);
                cycles = 5;
            },
            // DCX opcodes
            0x0B | 0x1B | 0x2B | 0x3B => {
                self.dcx_opcode(opcode);
                self.regs.pc = self.regs.pc.wrapping_add(1);
                cycles = 5;
            },
            // DAD opcodes
            0x09 | 0x19 | 0x29 | 0x39 => {
                self.dad_opcode(opcode);
                self.regs.pc = self.regs.pc.wrapping_add(1);
                cycles = 10;
            },
            // DAA opcode
            0x27 => {
                self.daa_opcode();
                self.regs.pc = self.regs.pc.wrapping_add(1);
                cycles = 4;
            },
            // RLC opcode
            0x07 => {
                self.rlc_opcode();
                self.regs.pc = self.regs.pc.wrapping_add(1);
                cycles = 4;
            },
            // RRC opcode
            0x0F => {
                self.rrc_opcode();
                self.regs.pc = self.regs.pc.wrapping_add(1);
                cycles = 4;
            },
            // RAL opcode
            0x17 => {
                self.ral_opcode();
                self.regs.pc = self.regs.pc.wrapping_add(1);
                cycles = 4;
            },
            // RAR opcode
            0x1F => {
                self.rar_opcode();
                self.regs.pc = self.regs.pc.wrapping_add(1);
                cycles = 4;
            },
            // CMA opcode
            0x2F => {
                self.cma_opcode();
                self.regs.pc = self.regs.pc.wrapping_add(1);
                cycles = 4;
            },
            // CMC opcode
            0x3F => {
                self.cmc_opcode();
                self.regs.pc = self.regs.pc.wrapping_add(1);
                cycles = 4;
            },
            // STC opcode
            0x37 => {
                self.stc_opcode();
                self.regs.pc = self.regs.pc.wrapping_add(1);
                cycles = 4;
            },
            _ => {
                return Err(Error::UnknownOpcode(opcode));
            },
        }

        Ok(cycles)
    }

    /// The accumulator with a register or `M`.
    #[verifier::rlimit(50)]
    fn execute_accumulator(&mut self, opcode: u8) -> (outcome: Result<u32, Error>)
        requires
            old(self)@.rom_loaded,
            old(self)@.code_byte(0) == Ok::<u8, Error>(opcode),
            0x80 <= opcode <= 0xBF,
        ensures
            forall|input: u8| final(self)@ == #[trigger] old(self)@.after_step(input),
            forall|input: u8| outcome == #[trigger] old(self)@.step_outcome(input),
            final(self).mapper() == old(self).mapper(),
    {
        let cycles: u32;

        match opcode {
            // ADD opcodes
            0x80..=0x87 => {
                cycles = self.add_opcode(opcode)?;
                self.regs.pc = self.regs.pc.wrapping_add(1);
            },
            // ADC opcodes
            0x88..=0x8F => {
                cycles = self.adc_opcode(opcode)?;
                self.regs.pc = self.regs.pc.wrapping_add(1);
            },
            // Sub opcodes
            0x90..=0x97 => {
                cycles = self.sub_opcode(opcode)?;
                self.regs.pc = self.regs.pc.wrapping_add(1);
            },
            // SBB Opcodes
            0x98..=0x9F => {
                cycles = self.sbb_opcode(opcode)?;
                self.regs.pc = self.regs.pc.wrapping_add(1);
            },
            // ANA opcodes
            0xA0..=0xA7 => {
                cycles = self.ana_opcode(opcode)?;
                self.regs.pc = self.regs.pc.wrapping_add(1);
            },
            // ORA opcodes
            0xB0..=0xB7 => {
                cycles = self.ora_opcode(opcode)?;
                self.regs.pc = self.regs.pc.wrapping_add(1);
            },
            // XRA opcodes
            0xA8..=0xAF => {
                cycles = self.xra_opcode(opcode)?;
                self.regs.pc = self.regs.pc.wrapping_add(1);
            },
            // CMP opcodes
            0xB8..=0xBF => {
                cycles = self.cmp_opcode(opcode)?;
                self.regs.pc = self.regs.pc.wrapping_add(1);
            },
            _ => {
                return Err(Error::UnknownOpcode(opcode));
            },
        }

        Ok(cycles)
    }

    /// The accumulator with the immediate byte.
    #[verifier::rlimit(50)]
    fn execute_immediate(&mut self, opcode: u8) -> (outcome: Result<u32, Error>)
        requires
            old(self)@.rom_loaded,
            old(self)@.code_byte(0) == Ok::<u8, Error>(opcode),
            is_immediate_opcode(opcode),
        ensures
            forall|input: u8| final(self)@ == #[trigger] old(self)@.after_step(input),
            forall|input: u8| outcome == #[trigger] old(self)@.step_outcome(input),
            final(self).mapper() == old(self).mapper(),
    {
        let cycles: u32;

        match opcode {
            // ADI opcode
            0xC6 => {
                let immediate = self.get_next_byte()?;
                self.adi_opcode(immediate);
                self.regs.pc = self.regs.pc.wrapping_add(2);
                cycles = 7;
            },
            // ACI opcode
            0xCE => {
                let immediate = self.get_next_byte()?;
                self.aci_opcode(immediate);
                self.regs.pc = self.regs.pc.wrapping_add(2);
                cycles = 7;
            },
            // SUI opcode
            0xD6 => {
                let immediate = self.get_next_byte()?;
                self.sui_opcode(immediate);
                self.regs.pc = self.regs.pc.wrapping_add(2);
                cycles = 7;
            },
            // SBI opcode
            0xDE => {
                let immediate = self.get_next_byte()?;
                self.sbi_opcode(immediate);
                self.regs.pc = self.regs.pc.wrapping_add(2);
                cycles = 7;
            },
            // ANI opcode
            0xE6 => {
                let immediate = self.get_next_byte()?;
                self.ani_opcode(immediate);
                self.regs.pc = self.regs.pc.wrapping_add(2);
                cycles = 7;
            },
            // ORI opcode
            0xF6 => {
                let immediate = self.get_next_byte()?;
                self.ori_opcode(immediate);
                self.regs.pc = self.regs.pc.wrapping_add(2);
                cycles = 7;
            },
            // XRI opcode
            0xEE => {
                let immediate = self.get_next_byte()?;
                self.xri_opcode(immediate);
                self.regs.pc = self.regs.pc.wrapping_add(2);
                cycles = 7;
            },
            // CPI opcode
            0xFE => {
                let immediate = self.get_next_byte()?;
                self.cpi_opcode(immediate);
                self.regs.pc = self.regs.pc.wrapping_add(2);
                cycles = 7;
            },
            _ => {
                return Err(Error::UnknownOpcode(opcode));
            },
        }

        Ok(cycles)
    }

    /// Jumps and calls, all with a target address behind the opcode.
    #[verifier::rlimit(50)]
    fn execute_jump(&mut self, opcode: u8) -> (outcome: Result<u32, Error>)
        requires
            old(self)@.rom_loaded,
            old(self)@.code_byte(0) == Ok::<u8, Error>(opcode),
            is_jump_opcode(opcode),
        ensures
            forall|input: u8| final(self)@ == #[trigger] old(self)@.after_step(input),
            forall|input: u8| outcome == #[trigger] old(self)@.step_outcome(input),
            final(self).mapper() == old(self).mapper(),
    {
        let cycles: u32;

        match opcode {
            // JMP opcode
            0xC3 => {
                let (low_byte, high_byte) = self.get_next_16bit()?;
                self.jmp_opcode(low_byte, high_byte);
                cycles = 10;
            },
            // JC, JNC, JZ, JNZ, JM, JP, JPE, JPO (JCCC) opcodes
            0xC2 | 0xCA | 0xD2 | 0xDA | 0xE2 | 0xEA | 0xF2 | 0xFA => {
                let (low_byte, high_byte) = self.get_next_16bit()?;
                self.jccc_opcode(opcode, low_byte, high_byte);
                cycles = 10;
            },
            // CALL opcode
            0xCD => {
                let (low_byte, high_byte) = self.get_next_16bit()?;
                self.call_opcode(low_byte, high_byte)?;
                cycles = 17;
            },
            // CC, CNC, CZ, CNZ, CM, CP, CPE, CPO (CCCC) opcodes
            0xC4 | 0xCC | 0xD4 | 0xDC | 0xE4 | 0xEC | 0xF4 | 0xFC => {
                let (low_byte, high_byte) = self.get_next_16bit()?;
                cycles = self.cccc_opcode(opcode, low_byte, high_byte)?;
            },
            _ => {
                return Err(Error::UnknownOpcode(opcode));
            },
        }

        Ok(cycles)
    }

    /// Returns, restarts and `PCHL`.
    #[verifier::rlimit(50)]
    fn execute_return(&mut self, opcode: u8) -> (outcome: Result<u32, Error>)
        requires
            old(self)@.rom_loaded,
            old(self)@.code_byte(0) == Ok::<u8, Error>(opcode),
            is_return_opcode(opcode),
        ensures
            forall|input: u8| final(self)@ == #[trigger] old(self)@.after_step(input),
            forall|input: u8| outcome == #[trigger] old(self)@.step_outcome(input),
            final(self).mapper() == old(self).mapper(),
    {
        let cycles: u32;

        match opcode {
            // RET opcode
            0xC9 => {
                self.ret_opcode()?;
                cycles = 10;
            },
            // RC, RNC, RZ, RNZ, RM, RP, RPE, RPO (RCCC) opcodes
            0xC0 | 0xC8 | 0xD0 | 0xD8 | 0xE0 | 0xE8 | 0xF0 | 0xF8 => {
                cycles = self.rccc_opcode(opcode)?;
            },
            // RST opcode
            0xC7 | 0xCF | 0xD7 | 0xDF | 0xE7 | 0xEF | 0xF7 | 0xFF => {
                self.rst_opcode(opcode)?;
                cycles = 11;
            },
            // PCHL opcode
            0xE9 => {
                self.pchl();
                cycles = 5;
            },
            _ => {
                return Err(Error::UnknownOpcode(opcode));
            },
        }

        Ok(cycles)
    }

    /// The stack, the ports and the interrupt switch.
    #[verifier::rlimit(50)]
    fn execute_stack(&mut self, opcode: u8, input: u8) -> (outcome: Result<u32, Error>)
        requires
            old(self)@.rom_loaded,
            old(self)@.code_byte(0) == Ok::<u8, Error>(opcode),
            is_stack_opcode(opcode),
        ensures
            final(self)@ == old(self)@.after_step(input),
            outcome == old(self)@.step_outcome(input),
            final(self).mapper() == old(self).mapper(),
    {
        let cycles: u32;

        match opcode {
            // PUSH opcode
            0xC5 | 0xD5 | 0xE5 | 0xF5 => {
                self.push_opcode(opcode)?;
                self.regs.pc = self.regs.pc.wrapping_add(1);
                cycles = 11;
            },
            // POP opcode
            0xC1 | 0xD1 | 0xE1 | 0xF1 => {
                self.pop_opcode(opcode)?;
                self.regs.pc = self.regs.pc.wrapping_add(1);
                cycles = 10;
            },
            // XTHL opcode
            0xE3 => {
                self.xthl_opcode()?;
                self.regs.pc = self.regs.pc.wrapping_add(1);
                cycles = 18;
            },
            // SPHL opcode
            0xF9 => {
                self.sphl();
                self.regs.pc = self.regs.pc.wrapping_add(1);
                cycles = 5;
            },
            // IN opcode
            0xDB => {
                self.get_next_byte()?;
                self.regs.a = input;
                self.regs.pc = self.regs.pc.wrapping_add(2);
                cycles = 10;
            },
            // OUT opcode
            0xD3 => {
                let num = self.get_next_byte()?;
                proof {
                    assert(self@.effect(Instruction::Out(num)) == Ok::<Machine, Error>(self@)) by {
                        reveal(Machine::effect);
                    }
                }
                self.regs.pc = self.regs.pc.wrapping_add(2);
                cycles = 10;
            },
            // EI opcode
            0xFB => {
                self.ei_opcode();
                self.regs.pc = self.regs.pc.wrapping_add(1);
                cycles = 4;
            },
            // DI opcode
            0xF3 => {
                self.di_opcode();
                self.regs.pc = self.regs.pc.wrapping_add(1);
                cycles = 4;
            },
            _ => {
                return Err(Error::UnknownOpcode(opcode));
            },
        }

        Ok(cycles)
    }
}

} // verus!
