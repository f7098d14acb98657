//! The Space Invaders cabinet around the processor: its memory map and the
//! pace of its clock.

use crate::machine::{lemma_cycles_of_a_step, run, Machine};
use crate::port::{reads, Port, PortAccess};
use crate::processor::Processor;
use vstd::prelude::*;

verus! {

/// The cycles of the processor in a second.
pub const CLOCK_SPEED: u32 = 2000000;

/// The frames of the screen in a second.
pub const FRAME_RATE: u32 = 60;

/// The cycles of half a frame.
pub const CYCLES_PER_TICK: u32 = CLOCK_SPEED / FRAME_RATE / 2;

/// The bytes of memory in the cabinet, ROM and RAM together.
pub const RAM_SIZE: usize = 16384;

/// The address of the first byte of the frame buffer.
pub const VIDEO_ADDRESS: u16 = 0x2400;

/// The columns of the screen.
pub const PIXEL_WIDTH: usize = 224;

/// The rows of the screen.
pub const PIXEL_HEIGHT: usize = 256;

/// The bytes of the frame buffer, one bit for each pixel.
pub const PIXEL_BYTES: usize = PIXEL_WIDTH * PIXEL_HEIGHT / 8;

/// What is wrong with the settings of a cabinet.
#[derive(Debug, Clone, Copy, PartialEq, Eq)]
pub enum Error {
    /// The number of ships set on the DIP switches is above 3.
    InvalidDipInput,
}

proof fn lemma_fold_address(address: u16)
    by (bit_vector)
    ensures
        address & 0x3FFF == address % 0x4000,
{
}

/// The memory map of the cabinet: the two upper address bits are not
/// wired, and the lower 8 KiB are ROM.
pub fn memory_mapper(address: u16) -> (answer: (usize, bool))
    ensures
        answer.0 == address % 0x4000,
        answer.1 == (address % 0x4000 < 0x2000),
{
    proof {
        lemma_fold_address(address);
    }
    // Mask out the 2 unused upper RAM pins
    let address = (address & 0x3FFF) as usize;
    let is_rom = address < 0x2000;

    (address, is_rom)
}

/// The index in the frame buffer of the byte that holds the pixel at column
/// `x` and row `y` of the screen, which stands on its side: a line of the
/// frame buffer is a column of the screen, read from the bottom up.
pub open spec fn pixel_index(x: int, y: int) -> int {
    x * (PIXEL_HEIGHT as int / 8) + (PIXEL_HEIGHT as int - 1 - y) / 8
}

/// The bit of that byte that holds the pixel.
pub open spec fn pixel_bit(y: int) -> int {
    (PIXEL_HEIGHT as int - 1 - y) % 8
}

/// Whether the pixel at column `x` and row `y` of the screen is lit in the
/// frame buffer `vram`; nothing for a pixel beyond the screen or the buffer.
pub fn pixel_at(vram: &[u8], x: usize, y: usize) -> (lit: Option<bool>)
    ensures
        lit is Some <==> x < PIXEL_WIDTH && y < PIXEL_HEIGHT && pixel_index(x as int, y as int)
            < vram@.len(),
        lit matches Some(on) ==> on == ((vram@[pixel_index(x as int, y as int)] >> (pixel_bit(
            y as int,
        ) as u8)) & 1 == 1),
{
    if x >= PIXEL_WIDTH || y >= PIXEL_HEIGHT {
        return None;
    }
    let line = PIXEL_HEIGHT - 1 - y;
    let bytes_per_line = PIXEL_HEIGHT / 8;
    assert(bytes_per_line == 32);
    let index = x * bytes_per_line + line / 8;
    if index >= vram.len() {
        return None;
    }
    let bit = (line % 8) as u8;
    Some((vram[index] >> bit) & 1 == 1)
}

/// Whether a run that was to last `budget` cycles went from `before` to
/// `after` with `inputs` from the ports and ended in `outcome`. A run that
/// completes has taken at least `budget` cycles, and fewer before its last
/// step; with no budget it takes no step. A run that fails has stopped before the step that failed, with
/// fewer than `budget` cycles taken.
pub open spec fn ran(
    before: Machine,
    inputs: Seq<u8>,
    after: Machine,
    outcome: Result<u32, crate::errors::Error>,
    budget: u32,
) -> bool {
    match outcome {
        Ok(cycles) => {
            &&& run(before, inputs) == Ok::<(Machine, int), crate::errors::Error>(
                (after, cycles as int),
            )
            &&& cycles >= budget
            &&& inputs.len() == 0 <==> budget == 0
            &&& inputs.len() > 0 ==> (run(before, inputs.drop_last()) matches Ok(earlier)
                && earlier.1 < budget)
        },
        Err(error) => {
            &&& budget > 0
            &&& inputs.len() > 0
            &&& run(before, inputs.drop_last()) matches Ok(earlier) && earlier.0 == after
                && earlier.1 < budget
            &&& after.step_outcome(inputs.last()) == Err::<u32, crate::errors::Error>(error)
        },
    }
}

/// What the instruction before step `index` of a run asks of the ports.
pub open spec fn access_at(before: Machine, inputs: Seq<u8>, index: int) -> PortAccess {
    match run(before, inputs.take(index)) {
        Ok(reached) => reached.0.port_access(),
        Err(_) => PortAccess::Idle,
    }
}

/// Whether `ports` can be the ports along a run of as many steps as there
/// are `inputs`: before the first step, after each step, `last` at the end.
pub open spec fn port_history<P>(ports: Seq<P>, inputs: Seq<u8>, first: P, last: P) -> bool {
    &&& ports.len() == inputs.len() + 1
    &&& ports[0] == first
    &&& ports[inputs.len() as int] == last
}

/// Runs the processor until it has taken `budget` cycles or more, and
/// reports the cycles taken. It stops at the first instruction that fails,
/// and reports its error. Each `IN` on the way takes the byte that
/// `read_in` gives for its port, each `OUT` hands its port and `A` to
/// `write_out`, and no other instruction touches the ports.
pub fn run_cycles<F: Fn(u16) -> (usize, bool), P: Port>(
    processor: &mut Processor<F>,
    port: &mut P,
    budget: u32,
) -> (outcome: Result<u32, crate::errors::Error>)
    requires
        budget <= u32::MAX - 18,
    ensures
        exists|inputs: Seq<u8>, ports: Seq<P>|
            {
                &&& #[trigger] port_history(ports, inputs, *old(port), *final(port))
                &&& ran(old(processor)@, inputs, final(processor)@, outcome, budget)
                &&& forall|i: int|
                    0 <= i < inputs.len() ==> match #[trigger] access_at(
                        old(processor)@,
                        inputs,
                        i,
                    ) {
                        PortAccess::Read(num) => reads(ports[i], num, inputs[i]) && ports[i + 1]
                            == ports[i],
                        PortAccess::Write(num, value) => exists|handed: &mut P|
                            mut_ref_current(handed) == ports[i] && mut_ref_future(handed)
                                == ports[i + 1] && call_ensures(
                                P::write_out,
                                (handed, num, value),
                                (),
                            ),
                        PortAccess::Idle => ports[i + 1] == ports[i],
                    }
            },
        final(processor).mapper() == old(processor).mapper(),
{
    let mut cycles: u32 = 0;
    let ghost mut inputs: Seq<u8> = Seq::empty();
    let ghost mut ports: Seq<P> = seq![*port];
    while cycles < budget
        invariant
            budget <= u32::MAX - 18,
            run(old(processor)@, inputs) == Ok::<(Machine, int), crate::errors::Error>(
                (processor@, cycles as int),
            ),
            inputs.len() == 0 ==> cycles == 0,
            budget == 0 ==> inputs.len() == 0,
            inputs.len() > 0 ==> (run(old(processor)@, inputs.drop_last()) matches Ok(earlier)
                && earlier.1 < budget),
            processor.mapper() == old(processor).mapper(),
            port_history(ports, inputs, *old(port), *port),
            forall|i: int|
                0 <= i < inputs.len() ==> match #[trigger] access_at(old(processor)@, inputs, i) {
                    PortAccess::Read(num) => reads(ports[i], num, inputs[i]) && ports[i + 1]
                        == ports[i],
                    PortAccess::Write(num, value) => exists|handed: &mut P|
                        mut_ref_current(handed) == ports[i] && mut_ref_future(handed) == ports[i
                            + 1] && call_ensures(P::write_out, (handed, num, value), ()),
                    PortAccess::Idle => ports[i + 1] == ports[i],
                },
        decreases
            (if cycles < budget {
                budget - cycles
            } else {
                0
            }),
    {
        let ghost reached = processor@;
        let ghost earlier_inputs = inputs;
        let ghost earlier_ports = ports;
        let step = processor.execute(port);
        let ghost input = match reached.port_access() {
            PortAccess::Read(num) => choose|input: u8|
                reads(earlier_ports[earlier_inputs.len() as int], num, input) && processor@
                    == reached.after_step(input) && step == reached.step_outcome(input),
            _ => 0,
        };
        proof {
            assert(processor@ == reached.after_step(input) && step == reached.step_outcome(input));
            lemma_cycles_of_a_step(reached, input);
            inputs = earlier_inputs.push(input);
            ports = earlier_ports.push(*port);
            assert(inputs.drop_last() =~= earlier_inputs);
            assert forall|i: int| 0 <= i < inputs.len() implies match #[trigger] access_at(
                old(processor)@,
                inputs,
                i,
            ) {
                PortAccess::Read(num) => reads(ports[i], num, inputs[i]) && ports[i + 1]
                    == ports[i],
                PortAccess::Write(num, value) => exists|handed: &mut P|
                    mut_ref_current(handed) == ports[i] && mut_ref_future(handed) == ports[i + 1]
                        && call_ensures(P::write_out, (handed, num, value), ()),
                PortAccess::Idle => ports[i + 1] == ports[i],
            } by {
                if i < earlier_inputs.len() {
                    assert(inputs.take(i) =~= earlier_inputs.take(i));
                    assert(access_at(old(processor)@, inputs, i) == access_at(
                        old(processor)@,
                        earlier_inputs,
                        i,
                    ));
                } else {
                    assert(inputs.take(i) =~= earlier_inputs);
                    assert(access_at(old(processor)@, inputs, i) == reached.port_access());
                }
            }
        }
        match step {
            Ok(more) => {
                cycles += more;
            },
            Err(error) => {
                assert(ran(old(processor)@, inputs, processor@, Err(error), budget));
                assert(port_history(ports, inputs, *old(port), *port));
                return Err(error);
            },
        }
    }
    assert(ran(old(processor)@, inputs, processor@, Ok(cycles), budget));
    assert(port_history(ports, inputs, *old(port), *port));
    Ok(cycles)
}

} // verus!
