//! A display time shared between threads.
use vstd::prelude::*;
use std::sync::atomic::AtomicI64;
use crate::xr::XrTime;

verus! {

/// An `XrTime` that threads read and write concurrently (relaxed ordering).
/// Another thread may write between any two calls, so no contract relates what
/// `get` returns to an earlier `set`.
pub struct AtomicXrTime {
    nanos: AtomicI64,
}

impl AtomicXrTime {
    pub fn new(time: XrTime) -> (r: AtomicXrTime) {
        AtomicXrTime { nanos: AtomicI64::new(time.0) }
    }

    pub fn get(&self) -> (r: XrTime) {
        XrTime(self.nanos.load(std::sync::atomic::Ordering::Relaxed))
    }

    pub fn set(&self, time: XrTime) {
        self.nanos.store(time.0, std::sync::atomic::Ordering::Relaxed);
    }
}

} // verus!
