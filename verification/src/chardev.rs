//! Character-device status reporting and the device's name record.
//!
//! A character device must never block: reads and writes report
//! success, would-have-blocked, or failure, and a status call says
//! what the device is ready for.

use vstd::prelude::*;

verus! {

/// The readiness a character device reports.
#[derive(Clone, Copy, PartialEq, Eq, Structural, Debug)]
pub enum Status {
    /// Not ready for reading or writing right now.
    Busy,
    /// Ready for reading, not for writing.
    Readable,
    /// Ready for writing, not for reading.
    Writable,
    /// Ready for both.
    ReadableAndWritable,
    /// In an erroneous state.
    Error,
}

/// What a non-blocking read or write came to: the value (or nothing,
/// for a write), a would-have-blocked, or a failure.
#[derive(Clone, Copy, PartialEq, Eq, Structural, Debug)]
pub enum RwResult<T> {
    Done(T),
    WouldBlock,
    Failed,
}

impl<T> RwResult<T> {
    /// The code the kernel expects: 1 done, 0 would block, -1 failed.
    pub fn code(&self) -> (c: i32)
        ensures
            c == match *self {
                RwResult::Done(_) => 1i32,
                RwResult::WouldBlock => 0i32,
                RwResult::Failed => -1i32,
            },
    {
        match self {
            RwResult::Done(_) => 1,
            RwResult::WouldBlock => 0,
            RwResult::Failed => -1,
        }
    }
}

/// A named character device, as handed to the kernel's device
/// registry.
#[derive(Debug)]
pub struct NkCharDev {
    pub name: String,
}

impl NkCharDev {
    /// A device record under the given name, not yet registered.
    pub fn new(name: &str) -> (d: NkCharDev)
        ensures
            d.name@ == name@,
    {
        NkCharDev { name: name.to_owned() }
    }

    /// The device's name.
    pub fn get_name(&self) -> (r: String)
        ensures
            r@ == self.name@,
    {
        self.name.clone()
    }
}

} // verus!
