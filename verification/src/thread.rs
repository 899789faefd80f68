//! Thread configuration.
//!
//! A new kernel thread is described before it is started: an optional
//! name, a stack size, a CPU to bind to, and whether it inherits its
//! parent's virtual console. The builder only collects these choices;
//! starting the thread is the kernel's work and happens outside this
//! crate.

use vstd::prelude::*;

verus! {

/// The stack sizes a thread can be given.
#[derive(Clone, Copy, PartialEq, Eq, Structural, Debug)]
pub enum StackSize {
    _4KB,
    _1MB,
    _2MB,
}

/// The configuration a thread is spawned with; unset fields keep the
/// kernel's defaults.
#[derive(Debug)]
pub struct Builder {
    pub name: Option<String>,
    pub stack_size: Option<StackSize>,
    pub bound_cpu: Option<i32>,
    pub inherits_vc: Option<()>,
}

impl Builder {
    /// The base configuration: everything left to the defaults.
    pub fn new() -> (b: Builder)
        ensures
            b.name is None,
            b.stack_size is None,
            b.bound_cpu is None,
            b.inherits_vc is None,
    {
        Builder { name: None, stack_size: None, bound_cpu: None, inherits_vc: None }
    }

    /// Names the thread-to-be.
    pub fn name(self, name: String) -> (b: Builder)
        ensures
            b.name == Some(name),
            b.stack_size == self.stack_size,
            b.bound_cpu == self.bound_cpu,
            b.inherits_vc == self.inherits_vc,
    {
        Builder { name: Some(name), ..self }
    }

    /// Sets the size of the stack for the new thread.
    pub fn stack_size(self, size: StackSize) -> (b: Builder)
        ensures
            b.name == self.name,
            b.stack_size == Some(size),
            b.bound_cpu == self.bound_cpu,
            b.inherits_vc == self.inherits_vc,
    {
        Builder { stack_size: Some(size), ..self }
    }

    /// Binds the new thread to one CPU.
    pub fn bound_cpu(self, cpu: u8) -> (b: Builder)
        ensures
            b.name == self.name,
            b.stack_size == self.stack_size,
            b.bound_cpu == Some(cpu as i32),
            b.inherits_vc == self.inherits_vc,
    {
        Builder { bound_cpu: Some(cpu as i32), ..self }
    }

    /// Makes the thread-to-be inherit its parent's virtual console.
    pub fn inherit_vc(self) -> (b: Builder)
        ensures
            b.name == self.name,
            b.stack_size == self.stack_size,
            b.bound_cpu == self.bound_cpu,
            b.inherits_vc == Some(()),
    {
        Builder { inherits_vc: Some(()), ..self }
    }
}

} // verus!
