//! The shutdown flag that signal handlers raise and the dispatch loop polls.
use vstd::prelude::*;
use std::sync::Arc;
use std::sync::atomic::AtomicBool;

verus! {

/// A flag shared between the coordinator, its workers and signal handlers.
///
/// Once triggered it is meant to stay triggered; since other threads may raise it at
/// any moment, reading it promises nothing about its value.
#[derive(Debug, Clone)]
pub struct ShutdownSignal {
    flag: Arc<AtomicBool>,
}

impl ShutdownSignal {
    /// The flag this signal raises and reads; clones of the signal share it.
    pub closed spec fn flag_handle(&self) -> Arc<AtomicBool> {
        self.flag
    }

    /// A signal that has not been triggered. What an atomic flag holds has no
    /// specification, so the contract does not state it.
    pub fn new() -> (r: ShutdownSignal) {
        ShutdownSignal { flag: Arc::new(AtomicBool::new(false)) }
    }

    /// Raises the signal.
    pub fn trigger(&self) {
        self.flag.store(true, std::sync::atomic::Ordering::SeqCst);
    }

    /// Whether the signal has been raised.
    pub fn is_triggered(&self) -> (r: bool) {
        self.flag.load(std::sync::atomic::Ordering::SeqCst)
    }

    /// The shared flag itself, for code that polls it directly.
    pub fn shared_flag(&self) -> (r: Arc<AtomicBool>)
        ensures
            r == self.flag_handle(),
    {
        clone_flag(&self.flag)
    }
}

/// std `Arc::clone`: another pointer to the same allocation, so the handle it returns
/// is the flag it was given.
#[verifier::external_body]
fn clone_flag(flag: &Arc<AtomicBool>) -> (r: Arc<AtomicBool>)
    ensures
        r == *flag,
{
    Arc::clone(flag)
}

} // verus!
