use intel8080::errors::Error;
use intel8080::port::{Port, PortAccess};
use intel8080::processor::Processor;
use intel8080::registers::{Flags, Registers};
use std::cell::RefCell;

type Mapper = fn(u16) -> (usize, bool);

struct TestPort {
    input: u8,
    reads: RefCell<Vec<u8>>,
    writes: Vec<(u8, u8)>,
}

impl TestPort {
    fn new(input: u8) -> Self {
        TestPort { input, reads: RefCell::new(Vec::new()), writes: Vec::new() }
    }
}

impl Port for TestPort {
    fn read_in(&self, port_num: u8) -> u8 {
        self.reads.borrow_mut().push(port_num);
        self.input
    }

    fn write_out(&mut self, port_num: u8, value: u8) {
        self.writes.push((port_num, value));
    }
}

fn flat(address: u16) -> (usize, bool) {
    (address as usize, false)
}

/// ROM below 0x2000, RAM up to 0x4000, the upper address bits unused.
fn cabinet(address: u16) -> (usize, bool) {
    let index = (address & 0x3FFF) as usize;
    (index, index < 0x2000)
}

/// Every address from 0x8000 on is one and the same cell.
fn folded_stack(address: u16) -> (usize, bool) {
    (if address >= 0x8000 { 0x8000 } else { address as usize }, false)
}

fn cpu_with(program: &[u8], address: u16) -> Processor<Mapper> {
    let mut cpu = Processor::new(0x10000, flat as Mapper);
    cpu.load_rom(program, address).unwrap();
    let mut regs = cpu.registers();
    regs.pc = address;
    cpu.set_registers(regs);
    cpu
}

fn set(cpu: &mut Processor<Mapper>, change: impl FnOnce(&mut Registers)) {
    let mut regs = cpu.registers();
    change(&mut regs);
    cpu.set_registers(regs);
}

fn byte(cpu: &Processor<Mapper>, address: u16) -> u8 {
    cpu.memory_slice(address, 1).unwrap()[0]
}

fn run(cpu: &mut Processor<Mapper>) -> Result<u32, Error> {
    let mut port = TestPort::new(0);
    let outcome = cpu.execute(&mut port);
    assert!(port.reads.borrow().is_empty());
    assert!(port.writes.is_empty());
    outcome
}

fn flags(s: bool, z: bool, ac: bool, p: bool, cy: bool) -> Flags {
    Flags { s, z, p, cy, ac }
}

fn even(byte: u8) -> bool {
    byte.count_ones() % 2 == 0
}

const CLEAR: Flags = Flags { s: false, z: false, p: false, cy: false, ac: false };

const UNDEFINED: [u8; 12] =
    [0x08, 0x10, 0x18, 0x20, 0x28, 0x30, 0x38, 0xCB, 0xD9, 0xDD, 0xED, 0xFD];

// ---------------------------------------------------------------------
// Construction and loading
// ---------------------------------------------------------------------

#[test]
fn new_processor_is_cleared() {
    let cpu = Processor::new(32, flat as Mapper);
    let regs = cpu.registers();
    assert_eq!(
        regs,
        Registers {
            a: 0,
            b: 0,
            c: 0,
            d: 0,
            e: 0,
            h: 0,
            l: 0,
            sp: 0,
            pc: 0,
            flags: CLEAR,
            interrupts_enabled: false,
        }
    );
    assert_eq!(cpu.memory_slice(0, 32), Ok(&[0u8; 32][..]));
    assert_eq!(cpu.memory_slice(0, 33), Err(Error::InvalidMemory(0)));
}

#[test]
fn execute_needs_a_rom() {
    let mut cpu = Processor::new(16, flat as Mapper);
    assert_eq!(run(&mut cpu), Err(Error::RomNotLoaded));
    assert_eq!(cpu.step(0), Err(Error::RomNotLoaded));
    assert_eq!(cpu.port_access(), PortAccess::Idle);
    assert_eq!(cpu.load_rom(&[0x00], 0), Ok(()));
    assert_eq!(run(&mut cpu), Ok(4));
}

#[test]
fn a_rom_that_does_not_fit_is_refused() {
    let mut cpu = Processor::new(4, flat as Mapper);
    assert_eq!(
        cpu.load_rom(&[0; 5], 0),
        Err(Error::RomSize { rom_size: 5, space_left: 4 })
    );
    assert_eq!(run(&mut cpu), Err(Error::RomNotLoaded));
    assert_eq!(cpu.load_rom(&[0; 3], 2), Err(Error::RomSize { rom_size: 3, space_left: 2 }));
}

#[test]
fn translate_answers_as_the_translator() {
    let cpu = Processor::new(0x4000, cabinet as Mapper);
    assert_eq!(cpu.translate(0x6400), (0x2400, false));
    assert_eq!(cpu.translate(0x0100), (0x0100, true));
}

#[test]
fn fetch_beyond_memory_is_refused() {
    let mut cpu = Processor::new(4, flat as Mapper);
    cpu.load_rom(&[0x00], 0).unwrap();
    set(&mut cpu, |r| r.pc = 4);
    let before = cpu.registers();
    assert_eq!(run(&mut cpu), Err(Error::InvalidMemory(4)));
    assert_eq!(cpu.registers(), before);
}

#[test]
fn immediate_beyond_memory_is_refused() {
    let mut cpu = Processor::new(4, flat as Mapper);
    cpu.load_rom(&[0x00, 0x00, 0xC3, 0x00], 0).unwrap();
    set(&mut cpu, |r| r.pc = 2);
    let before = cpu.registers();
    assert_eq!(run(&mut cpu), Err(Error::InvalidMemory(4)));
    assert_eq!(cpu.registers(), before);
    cpu.load_rom(&[0x3E], 3).unwrap();
    set(&mut cpu, |r| r.pc = 3);
    assert_eq!(run(&mut cpu), Err(Error::InvalidMemory(4)));
}

// ---------------------------------------------------------------------
// Worked examples
// ---------------------------------------------------------------------

#[test]
fn add_with_carry_out() {
    let mut cpu = cpu_with(&[0x80], 0);
    set(&mut cpu, |r| {
        r.a = 0xF0;
        r.b = 0x20;
        r.flags.cy = false;
    });
    assert_eq!(run(&mut cpu), Ok(4));
    let after = cpu.registers();
    assert_eq!(after.a, 0x10);
    assert!(after.flags.cy);
    assert!(!after.flags.ac);
    assert!(!after.flags.z);
    assert!(!after.flags.s);
    assert!(!after.flags.p);
    assert_eq!(after.pc, 1);
}

#[test]
fn add_with_auxiliary_carry() {
    let mut cpu = cpu_with(&[0x80], 0);
    set(&mut cpu, |r| {
        r.a = 0x2E;
        r.b = 0x74;
    });
    assert_eq!(run(&mut cpu), Ok(4));
    let after = cpu.registers();
    assert_eq!(after.a, 0xA2);
    assert_eq!(after.flags, flags(true, false, true, false, false));
}

#[test]
fn conditional_call_taken_and_return() {
    let mut cpu = cpu_with(&[0xDC, 0x50, 0x02], 0x0100);
    cpu.load_rom(&[0xC9], 0x0250).unwrap();
    set(&mut cpu, |r| {
        r.sp = 0x2400;
        r.pc = 0x0100;
        r.flags.cy = true;
    });
    assert_eq!(run(&mut cpu), Ok(17));
    assert_eq!(cpu.registers().pc, 0x0250);
    assert_eq!(cpu.registers().sp, 0x23FE);
    assert_eq!(byte(&cpu, 0x23FE), 0x03);
    assert_eq!(byte(&cpu, 0x23FF), 0x01);
    assert_eq!(run(&mut cpu), Ok(10));
    assert_eq!(cpu.registers().pc, 0x0103);
    assert_eq!(cpu.registers().sp, 0x2400);
}

#[test]
fn interrupt_injection() {
    let mut cpu = cpu_with(&[0x00], 0);
    set(&mut cpu, |r| {
        r.pc = 0x1234;
        r.sp = 0x2400;
        r.interrupts_enabled = true;
    });
    assert_eq!(cpu.interrupt(2), Ok(()));
    assert_eq!(byte(&cpu, 0x23FE), 0x34);
    assert_eq!(byte(&cpu, 0x23FF), 0x12);
    let after = cpu.registers();
    assert_eq!(after.sp, 0x23FE);
    assert_eq!(after.pc, 0x0010);
    assert!(!after.interrupts_enabled);
}

#[test]
fn daa_on_9b() {
    let mut cpu = cpu_with(&[0x27], 0);
    set(&mut cpu, |r| r.a = 0x9B);
    assert_eq!(run(&mut cpu), Ok(4));
    let after = cpu.registers();
    assert_eq!(after.a, 0x01);
    assert_eq!(after.flags, flags(false, false, true, false, true));
}

#[test]
fn mov_through_memory_counts_an_extra_cycle() {
    let mut cpu = cpu_with(&[0x70, 0x7E], 0);
    set(&mut cpu, |r| {
        r.h = 0x24;
        r.l = 0x00;
        r.b = 0x55;
    });
    assert_eq!(run(&mut cpu), Ok(7));
    assert_eq!(byte(&cpu, 0x2400), 0x55);
    assert_eq!(run(&mut cpu), Ok(7));
    assert_eq!(cpu.registers().a, 0x55);
    assert_eq!(cpu.registers().pc, 2);
}

// ---------------------------------------------------------------------
// Errors
// ---------------------------------------------------------------------

#[test]
fn undefined_opcodes_are_reported() {
    for opcode in UNDEFINED {
        let mut cpu = cpu_with(&[opcode, 0, 0], 0);
        let before = cpu.registers();
        assert_eq!(run(&mut cpu), Err(Error::UnknownOpcode(opcode)));
        assert_eq!(cpu.registers(), before);
    }
}

#[test]
fn halt_is_reported_and_leaves_the_state() {
    let mut cpu = cpu_with(&[0x76], 0);
    let before = cpu.registers();
    assert_eq!(run(&mut cpu), Err(Error::SystemHalt));
    assert_eq!(cpu.registers(), before);
    assert_eq!(run(&mut cpu), Err(Error::SystemHalt));
}

#[test]
fn every_defined_opcode_completes_on_zeroed_memory() {
    for opcode in 0..=255u8 {
        if UNDEFINED.contains(&opcode) || opcode == 0x76 {
            continue;
        }
        let mut cpu = cpu_with(&[opcode], 0x0100);
        set(&mut cpu, |r| r.sp = 0x2400);
        let mut port = TestPort::new(0);
        let outcome = cpu.execute(&mut port);
        assert!(outcome.is_ok(), "opcode {opcode:#04x}: {outcome:?}");
    }
}

fn length(opcode: u8) -> u16 {
    match opcode {
        0x01 | 0x11 | 0x21 | 0x31 | 0x22 | 0x2A | 0x32 | 0x3A => 3,
        0xC3 | 0xCD => 3,
        op if op >= 0xC0 && (op & 7 == 2 || op & 7 == 4) => 3,
        op if op < 0x40 && op & 7 == 6 => 2,
        op if op >= 0xC0 && op & 7 == 6 => 2,
        0xD3 | 0xDB => 2,
        _ => 1,
    }
}

fn is_transfer(opcode: u8) -> bool {
    opcode >= 0xC0
        && (matches!(opcode & 7, 0 | 2 | 4 | 7) || matches!(opcode, 0xC3 | 0xC9 | 0xCD | 0xE9))
}

#[test]
fn program_counter_steps_over_the_instruction() {
    for opcode in 0..=255u8 {
        if UNDEFINED.contains(&opcode) || opcode == 0x76 || is_transfer(opcode) {
            continue;
        }
        for start in [0x0100u16, 0xFFFD, 0xFFFE, 0xFFFF] {
            let mut cpu = Processor::new(0x10000, flat as Mapper);
            cpu.load_rom(&[opcode], start).unwrap();
            set(&mut cpu, |r| {
                r.pc = start;
                r.sp = 0x2400;
                r.h = 0x30;
            });
            let mut port = TestPort::new(0);
            assert!(cpu.execute(&mut port).is_ok());
            let pc = cpu.registers().pc;
            assert_eq!(pc, start.wrapping_add(length(opcode)), "opcode {opcode:#04x}");
            assert_ne!(pc, start);
        }
    }
}

#[test]
fn a_jump_to_itself_leaves_the_program_counter() {
    let mut cpu = cpu_with(&[0xC3, 0x00, 0x01], 0x0100);
    assert_eq!(run(&mut cpu), Ok(10));
    assert_eq!(cpu.registers().pc, 0x0100);
}

#[test]
fn cycles_of_every_opcode() {
    for opcode in 0..=255u8 {
        if UNDEFINED.contains(&opcode) || opcode == 0x76 {
            continue;
        }
        let memory_operand = |field: u8| field == 6;
        let source = opcode & 7;
        let destination = (opcode >> 3) & 7;
        // No flag is set, so NZ, NC, PO and P hold: the even conditions.
        let taken = destination % 2 == 0;
        let expected = match opcode {
            0x00 => 4,
            0x40..=0x7F => {
                if memory_operand(source) || memory_operand(destination) {
                    7
                } else {
                    5
                }
            }
            0x80..=0xBF => {
                if memory_operand(source) {
                    7
                } else {
                    4
                }
            }
            0x01 | 0x11 | 0x21 | 0x31 => 10,
            0x3A | 0x32 => 13,
            0x2A | 0x22 => 16,
            0x0A | 0x1A | 0x02 | 0x12 => 7,
            0x09 | 0x19 | 0x29 | 0x39 => 10,
            0x03 | 0x13 | 0x23 | 0x33 | 0x0B | 0x1B | 0x2B | 0x3B => 5,
            0x07 | 0x0F | 0x17 | 0x1F | 0x27 | 0x2F | 0x37 | 0x3F => 4,
            op if op < 0x40 && source == 4 || op < 0x40 && source == 5 => {
                if memory_operand(destination) {
                    10
                } else {
                    5
                }
            }
            op if op < 0x40 && source == 6 => {
                if memory_operand(destination) {
                    10
                } else {
                    7
                }
            }
            0xC3 => 10,
            0xCD => 17,
            0xC9 => 10,
            0xE9 => 5,
            0xEB => 5,
            0xE3 => 18,
            0xF9 => 5,
            0xDB | 0xD3 => 10,
            0xFB | 0xF3 => 4,
            0xC5 | 0xD5 | 0xE5 | 0xF5 => 11,
            0xC1 | 0xD1 | 0xE1 | 0xF1 => 10,
            _ if source == 0 => {
                if taken {
                    11
                } else {
                    5
                }
            }
            _ if source == 2 => 10,
            _ if source == 4 => {
                if taken {
                    17
                } else {
                    11
                }
            }
            _ if source == 6 => 7,
            _ if source == 7 => 11,
            _ => unreachable!(),
        };
        let mut cpu = cpu_with(&[opcode], 0x0100);
        set(&mut cpu, |r| {
            r.sp = 0x2400;
            r.h = 0x30;
        });
        let mut port = TestPort::new(0);
        assert_eq!(cpu.execute(&mut port), Ok(expected), "opcode {opcode:#04x}");
    }
}

// ---------------------------------------------------------------------
// Data movement
// ---------------------------------------------------------------------

fn register(regs: &Registers, field: u8) -> u8 {
    match field {
        0 => regs.b,
        1 => regs.c,
        2 => regs.d,
        3 => regs.e,
        4 => regs.h,
        5 => regs.l,
        7 => regs.a,
        _ => unreachable!(),
    }
}

fn distinct_registers(regs: &mut Registers) {
    regs.a = 0x0A;
    regs.b = 0x0B;
    regs.c = 0x0C;
    regs.d = 0x0D;
    regs.e = 0x0E;
    regs.h = 0x21;
    regs.l = 0x43;
}

#[test]
fn mov_between_all_registers() {
    for destination in [0u8, 1, 2, 3, 4, 5, 7] {
        for source in [0u8, 1, 2, 3, 4, 5, 7] {
            let opcode = 0x40 | (destination << 3) | source;
            let mut cpu = cpu_with(&[opcode], 0);
            set(&mut cpu, distinct_registers);
            let before = cpu.registers();
            assert_eq!(run(&mut cpu), Ok(5));
            let after = cpu.registers();
            assert_eq!(register(&after, destination), register(&before, source));
            for other in [0u8, 1, 2, 3, 4, 5, 7] {
                if other != destination {
                    assert_eq!(register(&after, other), register(&before, other));
                }
            }
            assert_eq!(after.flags, before.flags);
        }
    }
}

#[test]
fn mov_from_and_to_memory() {
    for field in [0u8, 1, 2, 3, 4, 5, 7] {
        let mut cpu = cpu_with(&[0x40 | (field << 3) | 6, 0x70 | field], 0);
        set(&mut cpu, distinct_registers);
        cpu.load_rom(&[0x99], 0x2143).unwrap();
        assert_eq!(run(&mut cpu), Ok(7));
        assert_eq!(register(&cpu.registers(), field), 0x99);
        set(&mut cpu, distinct_registers);
        assert_eq!(run(&mut cpu), Ok(7));
        assert_eq!(byte(&cpu, 0x2143), register(&cpu.registers(), field));
    }
}

#[test]
fn mov_to_rom_is_refused() {
    let mut cpu = Processor::new(0x4000, cabinet as Mapper);
    cpu.load_rom(&[0x70, 0x36, 0x12, 0x34, 0x35], 0).unwrap();
    set(&mut cpu, |r| {
        r.h = 0x10;
        r.b = 0x55;
    });
    let before = cpu.registers();
    for pc in [0u16, 1, 3, 4] {
        set(&mut cpu, |r| r.pc = pc);
        assert_eq!(run(&mut cpu), Err(Error::InvalidMemory(0x1000)));
        assert_eq!(cpu.registers(), Registers { pc, ..before });
        assert_eq!(cpu.memory_slice(0x1000, 1), Ok(&[0u8][..]));
    }
}

#[test]
fn mvi_to_registers_and_memory() {
    for field in 0..8u8 {
        let mut cpu = cpu_with(&[0x06 | (field << 3), 0x77], 0);
        set(&mut cpu, |r| {
            r.h = 0x21;
            r.l = 0x43;
        });
        if field == 6 {
            assert_eq!(run(&mut cpu), Ok(10));
            assert_eq!(byte(&cpu, 0x2143), 0x77);
        } else {
            assert_eq!(run(&mut cpu), Ok(7));
            assert_eq!(register(&cpu.registers(), field), 0x77);
        }
        assert_eq!(cpu.registers().pc, 2);
    }
}

#[test]
fn lxi_loads_low_then_high() {
    let mut cpu = cpu_with(&[0x01, 0x34, 0x12, 0x11, 0x78, 0x56, 0x21, 0xBC, 0x9A, 0x31, 0xF0, 0xDE], 0);
    for _ in 0..4 {
        assert_eq!(run(&mut cpu), Ok(10));
    }
    let regs = cpu.registers();
    assert_eq!((regs.b, regs.c), (0x12, 0x34));
    assert_eq!((regs.d, regs.e), (0x56, 0x78));
    assert_eq!((regs.h, regs.l), (0x9A, 0xBC));
    assert_eq!(regs.sp, 0xDEF0);
    assert_eq!(regs.pc, 12);
}

#[test]
fn lda_and_sta() {
    let mut cpu = cpu_with(&[0x3A, 0x00, 0x30, 0x32, 0x01, 0x30], 0);
    cpu.load_rom(&[0x5A], 0x3000).unwrap();
    assert_eq!(run(&mut cpu), Ok(13));
    assert_eq!(cpu.registers().a, 0x5A);
    assert_eq!(run(&mut cpu), Ok(13));
    assert_eq!(byte(&cpu, 0x3001), 0x5A);
    assert_eq!(cpu.registers().pc, 6);
}

#[test]
fn lhld_and_shld() {
    let mut cpu = cpu_with(&[0x2A, 0x00, 0x30, 0x22, 0x10, 0x30], 0);
    cpu.load_rom(&[0x34, 0x12], 0x3000).unwrap();
    assert_eq!(run(&mut cpu), Ok(16));
    assert_eq!((cpu.registers().h, cpu.registers().l), (0x12, 0x34));
    assert_eq!(run(&mut cpu), Ok(16));
    assert_eq!(byte(&cpu, 0x3010), 0x34);
    assert_eq!(byte(&cpu, 0x3011), 0x12);
}

#[test]
fn lhld_reads_both_bytes_before_it_changes_a_register() {
    let mut cpu = Processor::new(0x3001, flat as Mapper);
    cpu.load_rom(&[0x2A, 0x00, 0x30], 0).unwrap();
    cpu.load_rom(&[0x34], 0x3000).unwrap();
    set(&mut cpu, |r| {
        r.h = 1;
        r.l = 2;
    });
    let before = cpu.registers();
    assert_eq!(run(&mut cpu), Err(Error::InvalidMemory(0x3001)));
    assert_eq!(cpu.registers(), before);
}

#[test]
fn shld_checks_both_cells_before_it_writes() {
    let mut cpu = Processor::new(0x4000, cabinet as Mapper);
    cpu.load_rom(&[0x22, 0xFF, 0x3F], 0).unwrap();
    set(&mut cpu, |r| {
        r.h = 0x12;
        r.l = 0x34;
    });
    // 0x3FFF is RAM, 0x4000 folds to 0x0000, which is ROM.
    assert_eq!(run(&mut cpu), Err(Error::InvalidMemory(0)));
    assert_eq!(cpu.memory_slice(0x3FFF, 1), Ok(&[0u8][..]));
    assert_eq!(cpu.registers().pc, 0);
}

#[test]
fn ldax_and_stax() {
    let mut cpu = cpu_with(&[0x0A, 0x1A, 0x02, 0x12], 0);
    cpu.load_rom(&[0x11], 0x3000).unwrap();
    cpu.load_rom(&[0x22], 0x3100).unwrap();
    set(&mut cpu, |r| {
        r.b = 0x30;
        r.c = 0x00;
        r.d = 0x31;
        r.e = 0x00;
    });
    assert_eq!(run(&mut cpu), Ok(7));
    assert_eq!(cpu.registers().a, 0x11);
    assert_eq!(run(&mut cpu), Ok(7));
    assert_eq!(cpu.registers().a, 0x22);
    assert_eq!(run(&mut cpu), Ok(7));
    assert_eq!(byte(&cpu, 0x3000), 0x22);
    set(&mut cpu, |r| r.a = 0x33);
    assert_eq!(run(&mut cpu), Ok(7));
    assert_eq!(byte(&cpu, 0x3100), 0x33);
}

#[test]
fn xchg_swaps_hl_and_de() {
    let mut cpu = cpu_with(&[0xEB, 0xEB], 0);
    set(&mut cpu, distinct_registers);
    let before = cpu.registers();
    assert_eq!(run(&mut cpu), Ok(5));
    let swapped = cpu.registers();
    assert_eq!((swapped.h, swapped.l, swapped.d, swapped.e), (0x0D, 0x0E, 0x21, 0x43));
    assert_eq!(run(&mut cpu), Ok(5));
    assert_eq!(cpu.registers(), Registers { pc: 2, ..before });
}

// ---------------------------------------------------------------------
// Arithmetic and logic
// ---------------------------------------------------------------------

fn after_alu(opcode: u8, a: u8, x: u8, carry: bool) -> Registers {
    let mut cpu = cpu_with(&[opcode, x], 0);
    set(&mut cpu, |r| {
        r.a = a;
        r.b = x;
        r.flags.cy = carry;
        r.flags.ac = !carry;
    });
    assert_eq!(run(&mut cpu), Ok(if opcode >= 0xC0 { 7 } else { 4 }));
    let after = cpu.registers();
    assert_eq!(after.pc, if opcode >= 0xC0 { 2 } else { 1 });
    assert_eq!(after.b, x);
    after
}

fn expect_add(a: u8, x: u8, carry_in: u8) -> (u8, Flags) {
    let wide = a as u16 + x as u16 + carry_in as u16;
    let value = wide as u8;
    (
        value,
        flags(
            value & 0x80 != 0,
            value == 0,
            (a & 0xF) + (x & 0xF) + carry_in > 0xF,
            even(value),
            wide >> 8 != 0,
        ),
    )
}

fn expect_sub(a: u8, x: u8, borrow_in: u8) -> (u8, Flags) {
    let value = a.wrapping_sub(x).wrapping_sub(borrow_in);
    (
        value,
        flags(
            value & 0x80 != 0,
            value == 0,
            ((a & 0xF) as i16 - (x & 0xF) as i16 - borrow_in as i16) < 0,
            even(value),
            (a as u16) < x as u16 + borrow_in as u16,
        ),
    )
}

#[test]
fn add_and_adi_for_every_pair() {
    for a in 0..=255u8 {
        for x in 0..=255u8 {
            let (value, expected) = expect_add(a, x, 0);
            for opcode in [0x80, 0xC6] {
                let after = after_alu(opcode, a, x, true);
                assert_eq!((after.a, after.flags), (value, expected));
            }
        }
    }
}

#[test]
fn adc_and_aci_for_every_pair() {
    for a in 0..=255u8 {
        for x in 0..=255u8 {
            for carry in [false, true] {
                let (value, expected) = expect_add(a, x, carry as u8);
                let after = after_alu(0x88, a, x, carry);
                assert_eq!((after.a, after.flags), (value, expected));
            }
            let (value, expected) = expect_add(a, x, 1);
            let after = after_alu(0xCE, a, x, true);
            assert_eq!((after.a, after.flags), (value, expected));
        }
    }
}

#[test]
fn sub_and_sui_for_every_pair() {
    for a in 0..=255u8 {
        for x in 0..=255u8 {
            let (value, expected) = expect_sub(a, x, 0);
            for opcode in [0x90, 0xD6] {
                let after = after_alu(opcode, a, x, true);
                assert_eq!((after.a, after.flags), (value, expected));
            }
        }
    }
}

#[test]
fn sbb_and_sbi_for_every_pair() {
    for a in 0..=255u8 {
        for x in 0..=255u8 {
            for carry in [false, true] {
                let (value, expected) = expect_sub(a, x, carry as u8);
                let after = after_alu(0x98, a, x, carry);
                assert_eq!((after.a, after.flags), (value, expected));
            }
            let (value, expected) = expect_sub(a, x, 1);
            let after = after_alu(0xDE, a, x, true);
            assert_eq!((after.a, after.flags), (value, expected));
        }
    }
}

#[test]
fn sbb_borrows_into_the_auxiliary_carry() {
    let after = after_alu(0x98, 0x10, 0x0F, true);
    assert_eq!(after.a, 0x00);
    assert_eq!(after.flags, flags(false, true, true, true, false));
    let after = after_alu(0x98, 0x1F, 0x0F, false);
    assert_eq!(after.a, 0x10);
    assert_eq!(after.flags, flags(false, false, false, false, false));
    let after = after_alu(0x98, 0x20, 0x10, true);
    assert_eq!(after.a, 0x0F);
    assert_eq!(after.flags, flags(false, false, true, true, false));
    let after = after_alu(0x98, 0x00, 0xFF, true);
    assert_eq!(after.a, 0x00);
    assert_eq!(after.flags, flags(false, true, true, true, true));
}

#[test]
fn adc_carries_into_the_auxiliary_carry() {
    let after = after_alu(0x88, 0x0F, 0x00, true);
    assert_eq!(after.a, 0x10);
    assert_eq!(after.flags, flags(false, false, true, false, false));
    let after = after_alu(0x88, 0xFF, 0xFF, true);
    assert_eq!(after.a, 0xFF);
    assert_eq!(after.flags, flags(true, false, true, true, true));
}

#[test]
fn sbi_is_two_bytes_long() {
    let mut cpu = cpu_with(&[0xDE, 0x01, 0x00], 0);
    set(&mut cpu, |r| r.a = 5);
    assert_eq!(run(&mut cpu), Ok(7));
    assert_eq!(cpu.registers().a, 4);
    assert_eq!(cpu.registers().pc, 2);
}

#[test]
fn ana_and_ani_for_every_pair() {
    for a in 0..=255u8 {
        for x in 0..=255u8 {
            let value = a & x;
            let expected =
                flags(value & 0x80 != 0, value == 0, (a | x) & 0x08 != 0, even(value), false);
            for opcode in [0xA0, 0xE6] {
                let after = after_alu(opcode, a, x, true);
                assert_eq!((after.a, after.flags), (value, expected));
            }
        }
    }
}

#[test]
fn ora_xra_ori_and_xri_for_every_pair() {
    for a in 0..=255u8 {
        for x in 0..=255u8 {
            for (opcode, value) in [(0xB0, a | x), (0xF6, a | x), (0xA8, a ^ x), (0xEE, a ^ x)] {
                let expected = flags(value & 0x80 != 0, value == 0, false, even(value), false);
                let after = after_alu(opcode, a, x, true);
                assert_eq!((after.a, after.flags), (value, expected));
            }
        }
    }
}

#[test]
fn cmp_and_cpi_set_the_flags_of_sub_and_keep_a() {
    for a in 0..=255u8 {
        for x in 0..=255u8 {
            let subtracted = after_alu(0x90, a, x, true);
            for opcode in [0xB8, 0xFE] {
                let compared = after_alu(opcode, a, x, true);
                assert_eq!(compared.a, a);
                assert_eq!(compared.flags, subtracted.flags);
            }
        }
    }
}

#[test]
fn accumulator_operations_on_every_source() {
    for source in 0..8u8 {
        let mut cpu = cpu_with(&[0x80 | source], 0);
        set(&mut cpu, distinct_registers);
        cpu.load_rom(&[0x50], 0x2143).unwrap();
        let before = cpu.registers();
        let operand = if source == 6 { 0x50 } else { register(&before, source) };
        assert_eq!(run(&mut cpu), Ok(if source == 6 { 7 } else { 4 }));
        assert_eq!(cpu.registers().a, 0x0A + operand);
    }
}

#[test]
fn accumulator_operation_on_missing_memory_is_refused() {
    let mut cpu = Processor::new(0x100, flat as Mapper);
    cpu.load_rom(&[0x86], 0).unwrap();
    set(&mut cpu, |r| {
        r.a = 1;
        r.h = 0x21;
    });
    let before = cpu.registers();
    assert_eq!(run(&mut cpu), Err(Error::InvalidMemory(0x2100)));
    assert_eq!(cpu.registers(), before);
}

#[test]
fn inr_and_dcr_for_every_byte() {
    for value in 0..=255u8 {
        for carry in [false, true] {
            let mut cpu = cpu_with(&[0x04, 0x05, 0x05], 0);
            set(&mut cpu, |r| {
                r.b = value;
                r.flags.cy = carry;
            });
            assert_eq!(run(&mut cpu), Ok(5));
            let up = value.wrapping_add(1);
            assert_eq!(cpu.registers().b, up);
            assert_eq!(
                cpu.registers().flags,
                flags(up & 0x80 != 0, up == 0, value & 0xF == 0xF, even(up), carry)
            );
            assert_eq!(run(&mut cpu), Ok(5));
            assert_eq!(cpu.registers().b, value);
            assert_eq!(
                cpu.registers().flags,
                flags(value & 0x80 != 0, value == 0, up & 0xF == 0, even(value), carry)
            );
        }
    }
}

#[test]
fn inr_and_dcr_on_every_operand() {
    for field in 0..8u8 {
        let mut cpu = cpu_with(&[0x04 | (field << 3), 0x05 | (field << 3)], 0);
        set(&mut cpu, distinct_registers);
        cpu.load_rom(&[0x7F], 0x2143).unwrap();
        let before = cpu.registers();
        if field == 6 {
            assert_eq!(run(&mut cpu), Ok(10));
            assert_eq!(byte(&cpu, 0x2143), 0x80);
            assert!(cpu.registers().flags.s);
            assert_eq!(run(&mut cpu), Ok(10));
            assert_eq!(byte(&cpu, 0x2143), 0x7F);
        } else {
            assert_eq!(run(&mut cpu), Ok(5));
            assert_eq!(register(&cpu.registers(), field), register(&before, field) + 1);
            assert_eq!(run(&mut cpu), Ok(5));
            assert_eq!(register(&cpu.registers(), field), register(&before, field));
        }
    }
}

#[test]
fn inx_and_dcx_wrap_and_leave_the_flags() {
    for (pair, up, down) in [(0u8, 0x03u8, 0x0Bu8), (1, 0x13, 0x1B), (2, 0x23, 0x2B), (3, 0x33, 0x3B)] {
        for start in [0x0000u16, 0x00FF, 0x1234, 0xFFFF] {
            let mut cpu = cpu_with(&[up, down, down], 0);
            let (low, high) = (start as u8, (start >> 8) as u8);
            set(&mut cpu, |r| {
                match pair {
                    0 => (r.b, r.c) = (high, low),
                    1 => (r.d, r.e) = (high, low),
                    2 => (r.h, r.l) = (high, low),
                    _ => r.sp = start,
                }
                r.flags = flags(true, true, true, true, true);
            });
            let read = |regs: &Registers| match pair {
                0 => (regs.b as u16) << 8 | regs.c as u16,
                1 => (regs.d as u16) << 8 | regs.e as u16,
                2 => (regs.h as u16) << 8 | regs.l as u16,
                _ => regs.sp,
            };
            assert_eq!(run(&mut cpu), Ok(5));
            assert_eq!(read(&cpu.registers()), start.wrapping_add(1));
            assert_eq!(run(&mut cpu), Ok(5));
            assert_eq!(run(&mut cpu), Ok(5));
            assert_eq!(read(&cpu.registers()), start.wrapping_sub(1));
            assert_eq!(cpu.registers().flags, flags(true, true, true, true, true));
        }
    }
}

#[test]
fn dad_adds_to_hl_and_sets_only_the_carry() {
    let cases = [
        (0x09u8, 0x1234u16, 0x1111u16, 0x2345u16, false),
        (0x19, 0xFFFF, 0x0001, 0x0000, true),
        (0x19, 0x8000, 0x8000, 0x0000, true),
        (0x39, 0x00FF, 0x0001, 0x0100, false),
        (0x09, 0xFFFF, 0xFFFF, 0xFFFE, true),
    ];
    for (opcode, hl, other, sum, carry) in cases {
        let mut cpu = cpu_with(&[opcode], 0);
        set(&mut cpu, |r| {
            (r.h, r.l) = ((hl >> 8) as u8, hl as u8);
            (r.b, r.c) = ((other >> 8) as u8, other as u8);
            (r.d, r.e) = ((other >> 8) as u8, other as u8);
            r.sp = other;
            r.flags = flags(true, true, true, true, !carry);
        });
        assert_eq!(run(&mut cpu), Ok(10));
        let after = cpu.registers();
        assert_eq!(((after.h as u16) << 8) | after.l as u16, sum);
        assert_eq!(after.flags, flags(true, true, true, true, carry));
    }
    let mut cpu = cpu_with(&[0x29], 0);
    set(&mut cpu, |r| (r.h, r.l) = (0x81, 0x02));
    assert_eq!(run(&mut cpu), Ok(10));
    assert_eq!((cpu.registers().h, cpu.registers().l), (0x02, 0x04));
    assert!(cpu.registers().flags.cy);
}

fn expect_daa(a: u8, ac: bool, cy: bool) -> (u8, Flags) {
    let mut adjustment = 0u8;
    if a & 0xF > 9 || ac {
        adjustment |= 0x06;
    }
    if (a as u16 + adjustment as u16) >> 4 > 9 || cy {
        adjustment |= 0x60;
    }
    expect_add(a, adjustment, 0)
}

#[test]
fn daa_for_every_byte_and_carry() {
    for a in 0..=255u8 {
        for ac in [false, true] {
            for cy in [false, true] {
                let mut cpu = cpu_with(&[0x27], 0);
                set(&mut cpu, |r| {
                    r.a = a;
                    r.flags.ac = ac;
                    r.flags.cy = cy;
                });
                assert_eq!(run(&mut cpu), Ok(4));
                let after = cpu.registers();
                assert_eq!((after.a, after.flags), expect_daa(a, ac, cy));
            }
        }
    }
}

#[test]
fn daa_of_chosen_bytes() {
    for (a, ac, cy, value, ac_out, cy_out) in [
        (0x00u8, false, false, 0x00u8, false, false),
        (0x0A, false, false, 0x10, true, false),
        (0x10, true, false, 0x16, false, false),
        (0xA0, false, false, 0x00, false, true),
        (0x99, false, false, 0x99, false, false),
        (0xFA, false, false, 0x60, true, true),
        (0x32, true, true, 0x98, false, false),
    ] {
        let mut cpu = cpu_with(&[0x27], 0);
        set(&mut cpu, |r| {
            r.a = a;
            r.flags.ac = ac;
            r.flags.cy = cy;
        });
        assert_eq!(run(&mut cpu), Ok(4));
        let after = cpu.registers();
        assert_eq!((after.a, after.flags.ac, after.flags.cy), (value, ac_out, cy_out));
    }
}

fn add_then_daa(a: u8, x: u8) -> Processor<Mapper> {
    let mut cpu = cpu_with(&[0xC6, x, 0x27, 0x27], 0);
    set(&mut cpu, |r| r.a = a);
    assert_eq!(run(&mut cpu), Ok(7));
    assert_eq!(run(&mut cpu), Ok(4));
    cpu
}

#[test]
fn daa_twice_after_a_decimal_sum() {
    for a in 0..=0x99u8 {
        for x in 0..=0x99u8 {
            if a & 0xF > 9 || x & 0xF > 9 {
                continue;
            }
            let mut cpu = add_then_daa(a, x);
            let adjusted = cpu.registers();
            assert!(adjusted.a & 0xF <= 9 && adjusted.a >> 4 <= 9);
            assert_eq!(run(&mut cpu), Ok(4));
            let again = cpu.registers();
            if !adjusted.flags.ac && !adjusted.flags.cy {
                assert_eq!((again.a, again.flags), (adjusted.a, adjusted.flags));
            } else {
                assert_ne!(again.a, adjusted.a);
            }
        }
    }
}

#[test]
fn daa_twice_of_chosen_sums() {
    let mut cpu = add_then_daa(0x08, 0x08);
    assert_eq!(cpu.registers().a, 0x16);
    assert_eq!(run(&mut cpu), Ok(4));
    assert_eq!(cpu.registers().a, 0x16);
    let mut cpu = add_then_daa(0x05, 0x05);
    assert_eq!(cpu.registers().a, 0x10);
    assert!(cpu.registers().flags.ac);
    assert_eq!(run(&mut cpu), Ok(4));
    assert_eq!(cpu.registers().a, 0x16);
}

#[test]
fn rotations() {
    for a in 0..=255u8 {
        for carry in [false, true] {
            for (opcode, value, carry_out) in [
                (0x07u8, a.rotate_left(1), a & 0x80 != 0),
                (0x0F, a.rotate_right(1), a & 0x01 != 0),
                (0x17, a << 1 | carry as u8, a & 0x80 != 0),
                (0x1F, a >> 1 | (carry as u8) << 7, a & 0x01 != 0),
            ] {
                let mut cpu = cpu_with(&[opcode], 0);
                set(&mut cpu, |r| {
                    r.a = a;
                    r.flags = flags(true, false, true, false, carry);
                });
                assert_eq!(run(&mut cpu), Ok(4));
                let after = cpu.registers();
                assert_eq!(after.a, value);
                assert_eq!(after.flags, flags(true, false, true, false, carry_out));
            }
        }
    }
}

#[test]
fn cma_cmc_and_stc() {
    for a in 0..=255u8 {
        let mut cpu = cpu_with(&[0x2F], 0);
        set(&mut cpu, |r| r.a = a);
        assert_eq!(run(&mut cpu), Ok(4));
        assert_eq!(cpu.registers().a, !a);
        assert_eq!(cpu.registers().flags, CLEAR);
    }
    let mut cpu = cpu_with(&[0x37, 0x37, 0x3F, 0x3F], 0);
    assert_eq!(run(&mut cpu), Ok(4));
    assert_eq!(cpu.registers().flags, flags(false, false, false, false, true));
    assert_eq!(run(&mut cpu), Ok(4));
    assert!(cpu.registers().flags.cy);
    assert_eq!(run(&mut cpu), Ok(4));
    assert!(!cpu.registers().flags.cy);
    assert_eq!(run(&mut cpu), Ok(4));
    assert!(cpu.registers().flags.cy);
}

// ---------------------------------------------------------------------
// Transfers of control
// ---------------------------------------------------------------------

fn with_condition(regs: &mut Registers, condition: u8, holds: bool) {
    match condition {
        0 => regs.flags.z = !holds,
        1 => regs.flags.z = holds,
        2 => regs.flags.cy = !holds,
        3 => regs.flags.cy = holds,
        4 => regs.flags.p = !holds,
        5 => regs.flags.p = holds,
        6 => regs.flags.s = !holds,
        _ => regs.flags.s = holds,
    }
}

#[test]
fn jmp_and_pchl() {
    let mut cpu = cpu_with(&[0xC3, 0x34, 0x12], 0);
    cpu.load_rom(&[0xE9], 0x1234).unwrap();
    set(&mut cpu, |r| (r.h, r.l) = (0xAB, 0xCD));
    assert_eq!(run(&mut cpu), Ok(10));
    assert_eq!(cpu.registers().pc, 0x1234);
    assert_eq!(run(&mut cpu), Ok(5));
    assert_eq!(cpu.registers().pc, 0xABCD);
}

#[test]
fn conditional_jumps() {
    for condition in 0..8u8 {
        for holds in [false, true] {
            let mut cpu = cpu_with(&[0xC2 | (condition << 3), 0x34, 0x12], 0x0100);
            set(&mut cpu, |r| with_condition(r, condition, holds));
            assert_eq!(run(&mut cpu), Ok(10));
            assert_eq!(cpu.registers().pc, if holds { 0x1234 } else { 0x0103 });
        }
    }
}

#[test]
fn call_and_ret() {
    let mut cpu = cpu_with(&[0xCD, 0x00, 0x20], 0x0100);
    cpu.load_rom(&[0xC9], 0x2000).unwrap();
    set(&mut cpu, |r| r.sp = 0x3000);
    assert_eq!(run(&mut cpu), Ok(17));
    assert_eq!(cpu.registers().pc, 0x2000);
    assert_eq!(cpu.registers().sp, 0x2FFE);
    assert_eq!(cpu.memory_slice(0x2FFE, 2), Ok(&[0x03u8, 0x01][..]));
    assert_eq!(run(&mut cpu), Ok(10));
    assert_eq!(cpu.registers().pc, 0x0103);
    assert_eq!(cpu.registers().sp, 0x3000);
}

#[test]
fn conditional_calls() {
    for condition in 0..8u8 {
        for holds in [false, true] {
            let mut cpu = cpu_with(&[0xC4 | (condition << 3), 0x34, 0x12], 0x0100);
            set(&mut cpu, |r| {
                r.sp = 0x3000;
                with_condition(r, condition, holds);
            });
            assert_eq!(run(&mut cpu), Ok(if holds { 17 } else { 11 }));
            let after = cpu.registers();
            assert_eq!(after.pc, if holds { 0x1234 } else { 0x0103 });
            assert_eq!(after.sp, if holds { 0x2FFE } else { 0x3000 });
        }
    }
}

#[test]
fn conditional_returns() {
    for condition in 0..8u8 {
        for holds in [false, true] {
            let mut cpu = cpu_with(&[0xC0 | (condition << 3)], 0x0100);
            cpu.load_rom(&[0x78, 0x56], 0x3000).unwrap();
            set(&mut cpu, |r| {
                r.sp = 0x3000;
                with_condition(r, condition, holds);
            });
            assert_eq!(run(&mut cpu), Ok(if holds { 11 } else { 5 }));
            let after = cpu.registers();
            assert_eq!(after.pc, if holds { 0x5678 } else { 0x0101 });
            assert_eq!(after.sp, if holds { 0x3002 } else { 0x3000 });
        }
    }
}

#[test]
fn rst_pushes_the_next_address() {
    for n in 0..8u8 {
        let mut cpu = cpu_with(&[0xC7 | (n << 3)], 0x0123);
        set(&mut cpu, |r| r.sp = 0x3000);
        assert_eq!(run(&mut cpu), Ok(11));
        assert_eq!(cpu.registers().pc, 8 * n as u16);
        assert_eq!(cpu.registers().sp, 0x2FFE);
        assert_eq!(cpu.memory_slice(0x2FFE, 2), Ok(&[0x24u8, 0x01][..]));
    }
}

#[test]
fn a_call_into_rom_stack_changes_nothing() {
    let mut cpu = Processor::new(0x4000, cabinet as Mapper);
    cpu.load_rom(&[0xCD, 0x00, 0x30, 0xC7, 0xC5], 0).unwrap();
    // SP - 1 is RAM, SP - 2 is ROM.
    set(&mut cpu, |r| {
        r.sp = 0x2001;
        r.b = 0x12;
        r.interrupts_enabled = true;
    });
    let before = cpu.registers();
    for pc in [0u16, 3, 4] {
        set(&mut cpu, |r| r.pc = pc);
        assert_eq!(run(&mut cpu), Err(Error::InvalidMemory(0x1FFF)));
        assert_eq!(cpu.registers(), Registers { pc, ..before });
        assert_eq!(cpu.memory_slice(0x2000, 1), Ok(&[0u8][..]));
    }
    assert_eq!(cpu.interrupt(1), Err(Error::InvalidMemory(0x1FFF)));
    assert_eq!(cpu.registers(), Registers { pc: 4, ..before });
    set(&mut cpu, |r| r.sp = 0x2000);
    assert_eq!(cpu.interrupt(1), Err(Error::InvalidMemory(0x1FFF)));
    assert_eq!(cpu.registers(), Registers { pc: 4, sp: 0x2000, ..before });
}

#[test]
fn ret_with_a_missing_stack_is_refused() {
    let mut cpu = Processor::new(0x100, flat as Mapper);
    cpu.load_rom(&[0xC9, 0xC1, 0xE3], 0).unwrap();
    set(&mut cpu, |r| r.sp = 0x00FF);
    let before = cpu.registers();
    for pc in [0u16, 1, 2] {
        set(&mut cpu, |r| r.pc = pc);
        assert_eq!(run(&mut cpu), Err(Error::InvalidMemory(0x100)));
        assert_eq!(cpu.registers(), Registers { pc, ..before });
    }
}

// ---------------------------------------------------------------------
// The stack
// ---------------------------------------------------------------------

#[test]
fn push_and_pop_of_register_pairs() {
    let mut cpu = cpu_with(&[0xC5, 0xD5, 0xE5, 0xC1, 0xD1, 0xE1], 0);
    set(&mut cpu, |r| {
        distinct_registers(r);
        r.sp = 0x3000;
    });
    for _ in 0..3 {
        assert_eq!(run(&mut cpu), Ok(11));
    }
    assert_eq!(cpu.registers().sp, 0x2FFA);
    assert_eq!(
        cpu.memory_slice(0x2FFA, 6),
        Ok(&[0x43u8, 0x21, 0x0E, 0x0D, 0x0C, 0x0B][..])
    );
    for _ in 0..3 {
        assert_eq!(run(&mut cpu), Ok(10));
    }
    let after = cpu.registers();
    assert_eq!(after.sp, 0x3000);
    // Popped in the order they were pushed, the pairs have changed places.
    assert_eq!((after.b, after.c), (0x21, 0x43));
    assert_eq!((after.d, after.e), (0x0D, 0x0E));
    assert_eq!((after.h, after.l), (0x0B, 0x0C));
}

#[test]
fn push_then_pop_restores_every_pair() {
    for pair in 0..4u8 {
        let mut cpu = cpu_with(&[0xC5 | (pair << 4), 0xC1 | (pair << 4)], 0);
        set(&mut cpu, |r| {
            distinct_registers(r);
            r.sp = 0x3000;
            r.flags = flags(true, false, true, false, true);
        });
        let before = cpu.registers();
        assert_eq!(run(&mut cpu), Ok(11));
        set(&mut cpu, |r| {
            let clobbered = Registers { sp: r.sp, pc: r.pc, ..Registers { a: 0xEE, b: 0xEE, c: 0xEE, d: 0xEE, e: 0xEE, h: 0xEE, l: 0xEE, sp: 0, pc: 0, flags: CLEAR, interrupts_enabled: false } };
            let keep = *r;
            *r = match pair {
                0 => Registers { b: clobbered.b, c: clobbered.c, ..keep },
                1 => Registers { d: clobbered.d, e: clobbered.e, ..keep },
                2 => Registers { h: clobbered.h, l: clobbered.l, ..keep },
                _ => Registers { a: clobbered.a, flags: clobbered.flags, ..keep },
            };
        });
        assert_eq!(run(&mut cpu), Ok(10));
        assert_eq!(cpu.registers(), Registers { pc: 2, ..before });
    }
}

#[test]
fn push_psw_writes_the_flag_byte_below_a() {
    for bits in 0..32u8 {
        let f = flags(bits & 1 != 0, bits & 2 != 0, bits & 4 != 0, bits & 8 != 0, bits & 16 != 0);
        let mut cpu = cpu_with(&[0xF5], 0);
        set(&mut cpu, |r| {
            r.a = 0xA5;
            r.sp = 0x3000;
            r.flags = f;
        });
        assert_eq!(run(&mut cpu), Ok(11));
        let expected = 0x02
            | (f.s as u8) << 7
            | (f.z as u8) << 6
            | (f.ac as u8) << 4
            | (f.p as u8) << 2
            | f.cy as u8;
        assert_eq!(cpu.memory_slice(0x2FFE, 2), Ok(&[expected, 0xA5][..]));
    }
}

#[test]
fn pop_psw_ignores_the_reserved_bits() {
    for byte in 0..=255u8 {
        let mut cpu = cpu_with(&[0xF1, 0xF5], 0);
        cpu.load_rom(&[byte, 0x77], 0x3000).unwrap();
        set(&mut cpu, |r| r.sp = 0x3000);
        assert_eq!(run(&mut cpu), Ok(10));
        let after = cpu.registers();
        assert_eq!(after.a, 0x77);
        assert_eq!(
            after.flags,
            flags(byte & 0x80 != 0, byte & 0x40 != 0, byte & 0x10 != 0, byte & 0x04 != 0, byte & 0x01 != 0)
        );
        assert_eq!(after.sp, 0x3002);
        assert_eq!(run(&mut cpu), Ok(11));
        assert_eq!(byte_at(&cpu, 0x3000), (byte & 0xD5) | 0x02);
    }
}

fn byte_at(cpu: &Processor<Mapper>, address: u16) -> u8 {
    byte(cpu, address)
}

#[test]
fn the_stack_wraps_around_the_address_space() {
    let mut cpu = cpu_with(&[0xC5, 0xD1], 0x0100);
    set(&mut cpu, |r| {
        r.b = 0x12;
        r.c = 0x34;
        r.sp = 0x0001;
    });
    assert_eq!(run(&mut cpu), Ok(11));
    assert_eq!(cpu.registers().sp, 0xFFFF);
    assert_eq!(byte(&cpu, 0x0000), 0x12);
    assert_eq!(byte(&cpu, 0xFFFF), 0x34);
    assert_eq!(run(&mut cpu), Ok(10));
    assert_eq!((cpu.registers().d, cpu.registers().e), (0x12, 0x34));
    assert_eq!(cpu.registers().sp, 0x0001);
}

#[test]
fn push_then_pop_through_one_cell_loses_the_high_byte() {
    let mut cpu = Processor::new(0x8001, folded_stack as Mapper);
    cpu.load_rom(&[0xC5, 0xD1, 0xE3, 0xE3], 0).unwrap();
    set(&mut cpu, |r| {
        r.b = 0x12;
        r.c = 0x34;
        r.sp = 0x9000;
    });
    assert_eq!(run(&mut cpu), Ok(11));
    assert_eq!(cpu.memory_slice(0x8000, 1), Ok(&[0x34u8][..]));
    assert_eq!(run(&mut cpu), Ok(10));
    assert_eq!((cpu.registers().d, cpu.registers().e), (0x34, 0x34));
    set(&mut cpu, |r| (r.h, r.l) = (0x56, 0x78));
    assert_eq!(run(&mut cpu), Ok(18));
    assert_eq!(run(&mut cpu), Ok(18));
    assert_eq!((cpu.registers().h, cpu.registers().l), (0x56, 0x56));
    assert_eq!(cpu.memory_slice(0x8000, 1), Ok(&[0x34u8][..]));
}

#[test]
fn xthl_swaps_hl_with_the_top_of_the_stack() {
    let mut cpu = cpu_with(&[0xE3, 0xE3], 0);
    cpu.load_rom(&[0x78, 0x56], 0x3000).unwrap();
    set(&mut cpu, |r| {
        (r.h, r.l) = (0x12, 0x34);
        r.sp = 0x3000;
    });
    let before = cpu.registers();
    assert_eq!(run(&mut cpu), Ok(18));
    assert_eq!((cpu.registers().h, cpu.registers().l), (0x56, 0x78));
    assert_eq!(cpu.memory_slice(0x3000, 2), Ok(&[0x34u8, 0x12][..]));
    assert_eq!(cpu.registers().sp, 0x3000);
    assert_eq!(run(&mut cpu), Ok(18));
    assert_eq!(cpu.registers(), Registers { pc: 2, ..before });
    assert_eq!(cpu.memory_slice(0x3000, 2), Ok(&[0x78u8, 0x56][..]));
}

#[test]
fn xthl_on_a_rom_stack_changes_nothing() {
    let mut cpu = Processor::new(0x4000, cabinet as Mapper);
    cpu.load_rom(&[0xE3], 0).unwrap();
    cpu.load_rom(&[0x78, 0x56], 0x1FFF).unwrap();
    set(&mut cpu, |r| {
        (r.h, r.l) = (0x12, 0x34);
        r.sp = 0x1FFF;
    });
    let before = cpu.registers();
    assert_eq!(run(&mut cpu), Err(Error::InvalidMemory(0x1FFF)));
    assert_eq!(cpu.registers(), before);
    assert_eq!(cpu.memory_slice(0x1FFF, 2), Ok(&[0x78u8, 0x56][..]));
}

#[test]
fn sphl_loads_the_stack_pointer() {
    let mut cpu = cpu_with(&[0xF9], 0);
    set(&mut cpu, |r| (r.h, r.l) = (0x12, 0x34));
    assert_eq!(run(&mut cpu), Ok(5));
    assert_eq!(cpu.registers().sp, 0x1234);
}

// ---------------------------------------------------------------------
// Interrupts and ports
// ---------------------------------------------------------------------

#[test]
fn ei_and_di() {
    let mut cpu = cpu_with(&[0xFB, 0xF3], 0);
    assert_eq!(run(&mut cpu), Ok(4));
    assert!(cpu.registers().interrupts_enabled);
    assert_eq!(run(&mut cpu), Ok(4));
    assert!(!cpu.registers().interrupts_enabled);
}

#[test]
fn an_interrupt_is_dropped_while_interrupts_are_disabled() {
    let mut cpu = cpu_with(&[0x00], 0);
    set(&mut cpu, |r| {
        r.pc = 0x1234;
        r.sp = 0x2400;
    });
    let before = cpu.registers();
    assert_eq!(cpu.interrupt(2), Ok(()));
    assert_eq!(cpu.registers(), before);
    assert_eq!(cpu.memory_slice(0x23FE, 2), Ok(&[0u8, 0][..]));
}

#[test]
fn interrupt_vectors() {
    for n in 0..=255u8 {
        let mut cpu = cpu_with(&[0x00], 0);
        set(&mut cpu, |r| {
            r.pc = 0x1234;
            r.sp = 0x2400;
            r.interrupts_enabled = true;
        });
        assert_eq!(cpu.interrupt(n), Ok(()));
        assert_eq!(cpu.registers().pc, 8 * (n % 8) as u16);
    }
}

#[test]
fn in_reads_the_port() {
    let mut cpu = cpu_with(&[0xDB, 0x07], 0);
    assert_eq!(cpu.port_access(), PortAccess::Read(0x07));
    let mut port = TestPort::new(0x5C);
    assert_eq!(cpu.execute(&mut port), Ok(10));
    assert_eq!(cpu.registers().a, 0x5C);
    assert_eq!(cpu.registers().pc, 2);
    assert_eq!(*port.reads.borrow(), vec![0x07]);
    assert!(port.writes.is_empty());
}

#[test]
fn out_writes_to_the_port() {
    let mut cpu = cpu_with(&[0xD3, 0x09], 0);
    set(&mut cpu, |r| r.a = 0xC4);
    assert_eq!(cpu.port_access(), PortAccess::Write(0x09, 0xC4));
    let mut port = TestPort::new(0);
    assert_eq!(cpu.execute(&mut port), Ok(10));
    assert_eq!(cpu.registers().a, 0xC4);
    assert_eq!(cpu.registers().pc, 2);
    assert_eq!(port.writes, vec![(0x09, 0xC4)]);
    assert!(port.reads.borrow().is_empty());
}

#[test]
fn a_port_instruction_without_its_port_number_touches_no_port() {
    for opcode in [0xDBu8, 0xD3] {
        let mut cpu = Processor::new(4, flat as Mapper);
        cpu.load_rom(&[0, 0, 0, opcode], 0).unwrap();
        set(&mut cpu, |r| r.pc = 3);
        assert_eq!(cpu.port_access(), PortAccess::Idle);
        assert_eq!(run(&mut cpu), Err(Error::InvalidMemory(4)));
    }
}

#[test]
fn step_takes_the_input_in_place_of_a_port() {
    let mut cpu = cpu_with(&[0xDB, 0x01, 0xD3, 0x02, 0x3C], 0);
    assert_eq!(cpu.step(0x42), Ok(10));
    assert_eq!(cpu.registers().a, 0x42);
    assert_eq!(cpu.port_access(), PortAccess::Write(0x02, 0x42));
    assert_eq!(cpu.step(0x99), Ok(10));
    assert_eq!(cpu.registers().a, 0x42);
    assert_eq!(cpu.port_access(), PortAccess::Idle);
    assert_eq!(cpu.step(0x99), Ok(5));
    assert_eq!(cpu.registers().a, 0x43);
}

#[test]
fn set_registers_replaces_them_all() {
    let mut cpu = cpu_with(&[0x00], 0);
    let regs = Registers {
        a: 1,
        b: 2,
        c: 3,
        d: 4,
        e: 5,
        h: 6,
        l: 7,
        sp: 8,
        pc: 9,
        flags: flags(true, false, true, false, true),
        interrupts_enabled: true,
    };
    cpu.set_registers(regs);
    assert_eq!(cpu.registers(), regs);
    assert_eq!(byte(&cpu, 0), 0);
}

#[test]
fn a_clone_is_a_processor_of_its_own() {
    let mut cpu = cpu_with(&[0x3C, 0x3C], 0);
    let mut copy = cpu.clone();
    assert_eq!(run(&mut cpu), Ok(5));
    assert_eq!(cpu.registers().a, 1);
    assert_eq!(copy.registers().a, 0);
    assert_eq!(copy.memory_slice(0, 2), Ok(&[0x3Cu8, 0x3C][..]));
    assert_eq!(run(&mut copy), Ok(5));
    assert_eq!(run(&mut copy), Ok(5));
    assert_eq!(copy.registers().a, 2);
    assert_eq!(cpu.registers().a, 1);
    assert!(format!("{copy:?}").contains("Processor"));
}

#[test]
fn a_small_program_counts_down() {
    // MVI B,3; loop: DCR B; JNZ loop; HLT
    let mut cpu = cpu_with(&[0x06, 0x03, 0x05, 0xC2, 0x02, 0x00, 0x76], 0);
    let mut cycles = 0;
    let outcome = loop {
        match run(&mut cpu) {
            Ok(taken) => cycles += taken,
            Err(error) => break error,
        }
    };
    assert_eq!(outcome, Error::SystemHalt);
    assert_eq!(cycles, 7 + 3 * (5 + 10));
    assert_eq!(cpu.registers().b, 0);
    assert!(cpu.registers().flags.z);
    assert_eq!(cpu.registers().pc, 6);
}
