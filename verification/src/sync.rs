//! Per-frame synchronization primitives.  Each of the F in-flight ring
//! slots owns an "image available" signal, a "render finished" signal
//! and a CPU-waitable fence; the fence records whether the CPU has
//! observed the slot's previous GPU work as done.

use vstd::prelude::*;

verus! {

/// The synchronization primitives for all in-flight ring slots, one
/// entry per slot.  Semaphores are GPU-side handles the CPU never
/// inspects; fences carry the one bit the CPU acts on: signaled means
/// the slot's previously submitted work is done, so its command
/// buffers may be reused.
#[derive(Debug, Clone)]
pub struct FrameSyncContext {
    pub image_available_semaphores: Vec<u64>,
    pub render_finished_semaphores: Vec<u64>,
    pub in_flight_fences: Vec<bool>,
}

pub open spec fn sync_wf(s: FrameSyncContext, frame_count: int) -> bool {
    &&& s.image_available_semaphores@.len() == frame_count
    &&& s.render_finished_semaphores@.len() == frame_count
    &&& s.in_flight_fences@.len() == frame_count
}

impl FrameSyncContext {
    /// One semaphore pair and one fence per ring slot.  Fences are
    /// created already signaled, so the very first wait on each slot
    /// returns at once.
    pub fn new(frame_count: usize) -> (r: FrameSyncContext)
        ensures
            sync_wf(r, frame_count as int),
            forall|i: int| 0 <= i < frame_count ==> r.in_flight_fences@[i] == true,
    {
        let mut sync_context = FrameSyncContext {
            image_available_semaphores: Vec::new(),
            render_finished_semaphores: Vec::new(),
            in_flight_fences: Vec::new(),
        };
        let mut i: usize = 0;
        while i < frame_count
            invariant
                i <= frame_count,
                sync_wf(sync_context, i as int),
                forall|j: int| 0 <= j < i ==> sync_context.in_flight_fences@[j] == true,
            decreases frame_count - i,
        {
            sync_context.image_available_semaphores.push(i as u64);
            sync_context.render_finished_semaphores.push(i as u64);
            sync_context.in_flight_fences.push(true);
            i += 1;
        }
        sync_context
    }

    /// Destroy every semaphore and fence.
    pub fn destroy_context(&mut self)
        ensures
            sync_wf(*final(self), 0),
    {
        self.image_available_semaphores = Vec::new();
        self.render_finished_semaphores = Vec::new();
        self.in_flight_fences = Vec::new();
    }
}

} // verus!
