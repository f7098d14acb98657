//! The input and output ports through which the processor reaches its host.

use vstd::prelude::*;

verus! {

/// A set of byte-wide ports. The host implements it; the processor calls it
/// for the `IN` and `OUT` instructions. Nothing is asked of an
/// implementation but to return.
pub trait Port {
    fn read_in(&self, port_num: u8) -> u8;

    fn write_out(&mut self, port_num: u8, value: u8);
}

/// Whether a call of `read_in` on `port` for the port `port_num` has given
/// `value`, or can give it.
pub open spec fn reads<P: Port>(port: P, port_num: u8, value: u8) -> bool {
    call_ensures(P::read_in, (&port, port_num), value)
}

/// What an instruction asks of the ports.
#[derive(Clone, Copy, Debug, PartialEq, Eq)]
pub enum PortAccess {
    Idle,
    /// A read of the port with this number.
    Read(u8),
    /// A write to the port with this number, of this value.
    Write(u8, u8),
}

} // verus!
