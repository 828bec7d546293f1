//! The interception capability traits a host-bridge device implements, and
//! the error kind surfaced to the I/O-exit dispatcher.

use core::ops::Range;

use vstd::prelude::*;

verus! {

/// Error kinds surfaced to the I/O-exit dispatcher: a malformed access,
/// meaning a wrong access width or a width/offset pair the address port does
/// not accept.  "Device not present" is never an error; it is an all-ones
/// read or a silently dropped write.
#[derive(Clone, Copy, Debug, PartialEq, Eq, Structural)]
pub enum PciError {
    /// A read with an unsupported width.
    InvalidPortRead,
    /// A write with an unsupported width, or at a sub-port that does not
    /// accept it.
    InvalidPortWrite,
}

/// Port-I/O interception capability: an intercepting device claims a
/// contiguous port range and answers reads and writes keyed by port number
/// and access width.
pub trait PioOps: Sized {
    /// Well-formedness that every port operation preserves.
    spec fn pio_wf(&self) -> bool;

    /// Whether this device claims `port`.
    spec fn claims_port(&self, port: u16) -> bool;

    /// The claimed contiguous port range.
    fn port_range(&self) -> (r: Range<u16>)
        ensures
            forall|p: u16| self.claims_port(p) <==> r.start <= p < r.end,
    ;

    /// Read operation.
    fn read(&mut self, port: u16, access_size: u8) -> (r: Result<u32, PciError>)
        requires
            old(self).pio_wf(),
            old(self).claims_port(port),
        ensures
            final(self).pio_wf(),
    ;

    /// Write operation.
    fn write(&mut self, port: u16, access_size: u8, value: u32) -> (r: Result<(), PciError>)
        requires
            old(self).pio_wf(),
            old(self).claims_port(port),
        ensures
            final(self).pio_wf(),
    ;
}

/// Memory-mapped-I/O interception capability, defined for symmetry with an
/// eventual memory-mapped extended-configuration path.  No type of this
/// library implements it; it is here for intercepting devices to implement.
pub trait MmioOps: Sized {
    /// Well-formedness that every memory-mapped operation preserves.
    spec fn mmio_wf(&self) -> bool;

    /// Whether this device claims `addr`.
    spec fn claims_addr(&self, addr: u64) -> bool;

    /// The claimed contiguous address range.
    fn mmio_range(&self) -> (r: Range<u64>)
        ensures
            forall|a: u64| self.claims_addr(a) <==> r.start <= a < r.end,
    ;

    /// Read operation.
    fn read(&mut self, addr: u64, access_size: u8) -> (r: Result<u64, PciError>)
        requires
            old(self).mmio_wf(),
            old(self).claims_addr(addr),
        ensures
            final(self).mmio_wf(),
    ;

    /// Write operation.
    fn write(&mut self, addr: u64, access_size: u8, value: u64) -> (r: Result<(), PciError>)
        requires
            old(self).mmio_wf(),
            old(self).claims_addr(addr),
        ensures
            final(self).mmio_wf(),
    ;
}

} // verus!
