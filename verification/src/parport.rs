//! The parallel port's readiness bookkeeping.
//!
//! The port is ready or busy: an I/O attempt on a busy port must
//! report would-block rather than wait, a started transfer marks the
//! port busy, and the device's acknowledge interrupt marks it ready
//! again. The register reads and writes themselves (and the
//! interrupt plumbing) happen outside this crate; here is the state
//! machine they drive.

use vstd::prelude::*;

verus! {

/// The byte written to or read from the port's data register.
#[derive(Clone, Copy, PartialEq, Eq, Structural, Debug)]
pub struct DataReg {
    pub data: u8,
}

impl DataReg {
    pub fn new(data: u8) -> (r: DataReg)
        ensures
            r.data == data,
    {
        DataReg { data }
    }
}

/// Whether the port can take another transfer.
#[derive(Clone, Copy, PartialEq, Eq, Structural, Debug)]
pub enum ParportStatus {
    Ready,
    Busy,
}

/// The state the parallel-port driver keeps for one port.
#[derive(Clone, Copy, PartialEq, Eq, Structural, Debug)]
pub struct Parport {
    pub status: ParportStatus,
}

impl Parport {
    /// A fresh port, ready for a transfer.
    pub fn new() -> (p: Parport)
        ensures
            p.status == ParportStatus::Ready,
    {
        Parport { status: ParportStatus::Ready }
    }

    /// Whether the port can take another transfer.
    pub fn is_ready(&mut self) -> (r: bool)
        ensures
            r == (old(self).status == ParportStatus::Ready),
            *final(self) == *old(self),
    {
        self.status == ParportStatus::Ready
    }

    /// Claims the port for one transfer: succeeds exactly when the
    /// port was ready, and then marks it busy until the device
    /// acknowledges.
    pub fn begin_io(&mut self) -> (r: bool)
        ensures
            r == (old(self).status == ParportStatus::Ready),
            r ==> final(self).status == ParportStatus::Busy,
            !r ==> *final(self) == *old(self),
    {
        if self.status == ParportStatus::Ready {
            self.status = ParportStatus::Busy;
            true
        } else {
            false
        }
    }

    /// The device's acknowledge: the port is ready again.
    pub fn set_ready(&mut self)
        ensures
            final(self).status == ParportStatus::Ready,
    {
        self.status = ParportStatus::Ready;
    }
}

} // verus!
