//! Endpoint buffer descriptor table entries.
//!
//! The hardware reads one descriptor per endpoint to find the buffer
//! for that endpoint's next transfer. A descriptor does not own the
//! buffer: it records where the caller staged it, and the caller must
//! keep that memory valid and untouched for as long as the hardware
//! may access it. The driver itself never reads or writes the buffer's
//! contents, so a descriptor carries the staged buffer's address as a
//! plain value; the embedding that owns the real memory converts its
//! buffer to and from this handle.

use vstd::prelude::*;

verus! {

/// Address of a caller-staged transfer buffer.
#[derive(Copy, Clone, Debug, PartialEq, Eq, Structural)]
pub struct BufferAddr {
    pub addr: usize,
}

/// One endpoint's buffer descriptor slot.
///
/// The trailing reserved word mirrors the hardware layout of a
/// descriptor entry; it is always zero.
#[derive(Copy, Clone, Debug, PartialEq, Eq, Structural)]
pub struct Endpoint {
    addr: Option<BufferAddr>,
    reserved: u32,
}

impl View for Endpoint {
    type V = Option<BufferAddr>;

    closed spec fn view(&self) -> Option<BufferAddr> {
        self.addr
    }
}

impl Endpoint {
    /// A fresh descriptor with no buffer assigned.
    pub fn new() -> (e: Endpoint)
        ensures
            e@ is None,
    {
        Endpoint { addr: None, reserved: 0 }
    }

    /// The staged buffer's address, if one is set.
    pub fn addr_value(&self) -> (a: Option<BufferAddr>)
        ensures
            a == self@,
    {
        self.addr
    }

    /// Stage `addr` as the endpoint's next transfer buffer.
    pub fn set_addr(&mut self, addr: BufferAddr)
        ensures
            final(self)@ == Some(addr),
    {
        self.addr = Some(addr);
    }
}

} // verus!
