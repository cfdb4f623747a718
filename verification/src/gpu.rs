//! GPU device wrapper.
//!
//! The virtio GPU transport, framebuffer setup, and cursor upload are
//! collaborators done once at boot; what the kernel core keeps is where the
//! framebuffer's physical pages live and how many flushes have been
//! requested.  A flush asks the hardware to push the framebuffer to the
//! display and always succeeds.

use vstd::prelude::*;

verus! {

pub struct VirtIOGpuWrapper {
    /// Physical base address of the framebuffer pages.
    pub fb_base: usize,
    /// Length of the framebuffer in bytes.
    pub fb_len: usize,
    /// Flush requests issued to the hardware so far.
    pub flush_requests: u64,
}

impl VirtIOGpuWrapper {
    /// Wrap a framebuffer the transport set up at boot.
    pub fn new(fb_base: usize, fb_len: usize) -> (gpu: Self)
        ensures
            gpu.fb_base == fb_base,
            gpu.fb_len == fb_len,
            gpu.flush_requests == 0,
    {
        VirtIOGpuWrapper { fb_base, fb_len, flush_requests: 0 }
    }

    /// Request the hardware push the framebuffer to the display.
    pub fn flush(&mut self)
        requires
            old(self).flush_requests < u64::MAX,
        ensures
            final(self).flush_requests == old(self).flush_requests + 1,
            final(self).fb_base == old(self).fb_base,
            final(self).fb_len == old(self).fb_len,
    {
        self.flush_requests = self.flush_requests + 1;
    }
}

} // verus!
