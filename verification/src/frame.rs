//! The frame loop coordinator: one state machine per frame that orders
//! fence waits, image acquisition, command recording, submission and
//! presentation, cycling round-robin through the in-flight ring slots.
//! The shell performs each GPU call and reports its outcome; the
//! coordinator decides what is permitted next, and its invariant rules
//! out recording into a slot whose previous work is still in flight.

use vstd::prelude::*;
use vstd::pervasive::VecAdditionalExecFns;
use crate::sync::{FrameSyncContext, sync_wf};
use crate::swapchain::Extent2D;

verus! {

/// Where the per-frame protocol stands.
#[derive(Debug, Clone, Copy, PartialEq, Eq, Structural)]
pub enum FrameStep {
    WaitForSlot,
    AcquireImage,
    RecordCommands,
    Submit,
    Present,
}

/// What the swapchain answered when asked for its next image.  A stale
/// chain is an expected, recoverable answer, not an error.
#[derive(Debug, Clone, Copy, PartialEq, Eq, Structural)]
pub enum AcquireOutcome {
    Image(u32),
    OutOfDate,
}

/// The per-frame protocol state.  `current_frame` names the ring slot
/// in use; the slot's fence entry records whether the CPU has observed
/// that slot's previous GPU work as finished.
pub struct FrameCoordinator {
    pub step: FrameStep,
    pub current_frame: usize,
    pub frame_count: usize,
    pub image_count: u32,
    pub sync: FrameSyncContext,
    pub acquired_image: Option<u32>,
    /// Deferred resize: set by a resize notification or a stale acquire,
    /// acted on only between frames.
    pub resize_needed: bool,
    pub window_size: Extent2D,
}

/// The coordinator invariant.  Its heart is ring-slot safety: in the
/// recording and submission steps, the current slot's fence has been
/// observed signaled, so the commands being recorded can not race the
/// GPU's use of that slot's previous buffers.
pub open spec fn coordinator_wf(c: FrameCoordinator) -> bool {
    &&& 1 <= c.frame_count
    &&& c.current_frame < c.frame_count
    &&& sync_wf(c.sync, c.frame_count as int)
    &&& ((c.step is AcquireImage || c.step is RecordCommands || c.step is Submit)
        ==> c.sync.in_flight_fences@[c.current_frame as int] == true)
    &&& ((c.step is RecordCommands || c.step is Submit || c.step is Present) ==> {
        &&& c.acquired_image is Some
        &&& c.acquired_image->Some_0 < c.image_count
    })
}

impl FrameCoordinator {
    /// Start before the first frame: slot 0, every fence created
    /// signaled, no resize pending.
    pub fn new(frame_count: usize, image_count: u32, window_size: Extent2D) -> (r:
        FrameCoordinator)
        requires
            1 <= frame_count,
        ensures
            coordinator_wf(r),
            r.step is WaitForSlot,
            r.current_frame == 0,
            r.frame_count == frame_count,
            r.image_count == image_count,
            r.acquired_image is None,
            r.resize_needed == false,
            r.window_size == window_size,
            forall|i: int| 0 <= i < frame_count ==> r.sync.in_flight_fences@[i] == true,
    {
        FrameCoordinator {
            step: FrameStep::WaitForSlot,
            current_frame: 0,
            frame_count,
            image_count,
            sync: FrameSyncContext::new(frame_count),
            acquired_image: None,
            resize_needed: false,
            window_size,
        }
    }

    /// The blocking wait on the current slot's fence has returned: the
    /// slot's previous work is done and the protocol may ask for an
    /// image.
    pub fn wait_for_slot_fence(&mut self)
        requires
            coordinator_wf(*old(self)),
            old(self).step is WaitForSlot,
        ensures
            coordinator_wf(*final(self)),
            final(self).step is AcquireImage,
            final(self).current_frame == old(self).current_frame,
            final(self).frame_count == old(self).frame_count,
            final(self).image_count == old(self).image_count,
            final(self).acquired_image == old(self).acquired_image,
            final(self).resize_needed == old(self).resize_needed,
            final(self).window_size == old(self).window_size,
            final(self).sync.in_flight_fences@ == old(self).sync.in_flight_fences@.update(
                old(self).current_frame as int,
                true,
            ),
    {
        self.sync.in_flight_fences.set(self.current_frame, true);
        self.step = FrameStep::AcquireImage;
    }

    /// Act on whatever the acquire call answered: a usable image index
    /// moves the protocol on to recording; a stale chain or an index
    /// out of range is the recoverable resize case and restarts the
    /// frame with a resize pending.
    pub fn complete_acquire(&mut self, outcome: AcquireOutcome)
        requires
            coordinator_wf(*old(self)),
            old(self).step is AcquireImage,
        ensures
            coordinator_wf(*final(self)),
            final(self).current_frame == old(self).current_frame,
            final(self).frame_count == old(self).frame_count,
            final(self).image_count == old(self).image_count,
            final(self).sync == old(self).sync,
            final(self).window_size == old(self).window_size,
            (outcome matches AcquireOutcome::Image(i) && i < old(self).image_count) ==> {
                &&& final(self).step is RecordCommands
                &&& final(self).acquired_image == Some(outcome->Image_0)
                &&& final(self).resize_needed == old(self).resize_needed
            },
            !(outcome matches AcquireOutcome::Image(i) && i < old(self).image_count) ==> {
                &&& final(self).step is WaitForSlot
                &&& final(self).acquired_image is None
                &&& final(self).resize_needed == true
            },
    {
        match outcome {
            AcquireOutcome::Image(image_index) => {
                if image_index < self.image_count {
                    self.acquired_image = Some(image_index);
                    self.step = FrameStep::RecordCommands;
                } else {
                    self.acquired_image = None;
                    self.resize_needed = true;
                    self.step = FrameStep::WaitForSlot;
                }
            },
            AcquireOutcome::OutOfDate => {
                self.acquired_image = None;
                self.resize_needed = true;
                self.step = FrameStep::WaitForSlot;
            },
        }
    }

    /// Permit recording for this frame, naming the ring slot whose
    /// command buffers are to be re-recorded and the image to draw to.
    /// Recording is only ever permitted while the slot's fence stands
    /// observed signaled.
    pub fn begin_record(&mut self) -> (r: (usize, u32))
        requires
            coordinator_wf(*old(self)),
            old(self).step is RecordCommands,
        ensures
            coordinator_wf(*final(self)),
            final(self).step is Submit,
            r.0 == old(self).current_frame,
            r.1 == old(self).acquired_image->Some_0,
            r.1 < old(self).image_count,
            old(self).sync.in_flight_fences@[old(self).current_frame as int] == true,
            final(self).current_frame == old(self).current_frame,
            final(self).frame_count == old(self).frame_count,
            final(self).image_count == old(self).image_count,
            final(self).sync == old(self).sync,
            final(self).acquired_image == old(self).acquired_image,
            final(self).resize_needed == old(self).resize_needed,
            final(self).window_size == old(self).window_size,
    {
        self.step = FrameStep::Submit;
        let image = self.acquired_image.unwrap();
        (self.current_frame, image)
    }

    /// The slot's fence is reset and the recorded commands submitted,
    /// to signal it again when the GPU finishes: the slot is in flight
    /// until the next wait observes that.
    pub fn submit_frame(&mut self)
        requires
            coordinator_wf(*old(self)),
            old(self).step is Submit,
        ensures
            coordinator_wf(*final(self)),
            final(self).step is Present,
            final(self).current_frame == old(self).current_frame,
            final(self).frame_count == old(self).frame_count,
            final(self).image_count == old(self).image_count,
            final(self).acquired_image == old(self).acquired_image,
            final(self).resize_needed == old(self).resize_needed,
            final(self).window_size == old(self).window_size,
            final(self).sync.in_flight_fences@ == old(self).sync.in_flight_fences@.update(
                old(self).current_frame as int,
                false,
            ),
    {
        self.sync.in_flight_fences.set(self.current_frame, false);
        self.step = FrameStep::Present;
    }

    /// Presentation of the acquired image has been issued, waiting
    /// GPU-side on "render finished"; the protocol advances to the next
    /// ring slot.
    pub fn present_frame(&mut self)
        requires
            coordinator_wf(*old(self)),
            old(self).step is Present,
        ensures
            coordinator_wf(*final(self)),
            final(self).step is WaitForSlot,
            final(self).current_frame == (old(self).current_frame + 1) % (
            old(self).frame_count as int),
            final(self).frame_count == old(self).frame_count,
            final(self).image_count == old(self).image_count,
            final(self).sync == old(self).sync,
            final(self).acquired_image is None,
            final(self).resize_needed == old(self).resize_needed,
            final(self).window_size == old(self).window_size,
    {
        self.acquired_image = None;
        self.current_frame = (self.current_frame + 1) % self.frame_count;
        self.step = FrameStep::WaitForSlot;
    }

    /// One whole frame of the protocol, the acquire's answer taken as
    /// an argument: wait on the ring slot's fence, act on the acquire,
    /// and — when an image was obtained — record, submit and present,
    /// advancing to the next slot.  Returns the (ring slot, image
    /// index) drawn, or `None` when the chain was stale and the frame
    /// restarted with a resize pending.
    pub fn draw_frame(&mut self, outcome: AcquireOutcome) -> (r: Option<(usize, u32)>)
        requires
            coordinator_wf(*old(self)),
            old(self).step is WaitForSlot,
        ensures
            coordinator_wf(*final(self)),
            final(self).step is WaitForSlot,
            final(self).frame_count == old(self).frame_count,
            final(self).image_count == old(self).image_count,
            final(self).window_size == old(self).window_size,
            (outcome matches AcquireOutcome::Image(i) && i < old(self).image_count) ==> {
                &&& r == Some((old(self).current_frame, outcome->Image_0))
                &&& final(self).current_frame == (old(self).current_frame + 1) % (
                old(self).frame_count as int)
                &&& final(self).sync.in_flight_fences@[old(self).current_frame as int] == false
                &&& final(self).resize_needed == old(self).resize_needed
            },
            !(outcome matches AcquireOutcome::Image(i) && i < old(self).image_count) ==> {
                &&& r is None
                &&& final(self).current_frame == old(self).current_frame
                &&& final(self).resize_needed == true
            },
    {
        self.wait_for_slot_fence();
        self.complete_acquire(outcome);
        if matches!(self.step, FrameStep::RecordCommands) {
            let (slot, image) = self.begin_record();
            self.submit_frame();
            self.present_frame();
            Some((slot, image))
        } else {
            None
        }
    }

    /// A resize notification: remember the new size and defer the
    /// rebuild to the gap between frames, never acting mid-frame.
    pub fn on_resize(&mut self, width: u32, height: u32)
        requires
            coordinator_wf(*old(self)),
        ensures
            coordinator_wf(*final(self)),
            final(self).resize_needed == true,
            final(self).window_size == (Extent2D { width, height }),
            final(self).step == old(self).step,
            final(self).current_frame == old(self).current_frame,
            final(self).frame_count == old(self).frame_count,
            final(self).image_count == old(self).image_count,
            final(self).sync == old(self).sync,
            final(self).acquired_image == old(self).acquired_image,
    {
        self.window_size = Extent2D { width, height };
        self.resize_needed = true;
    }

    /// Between frames, hand out a pending resize exactly once: the
    /// caller runs the recreation protocol for the returned size.
    pub fn take_resize_request(&mut self) -> (r: Option<Extent2D>)
        requires
            coordinator_wf(*old(self)),
            old(self).step is WaitForSlot,
        ensures
            coordinator_wf(*final(self)),
            old(self).resize_needed ==> r == Some(old(self).window_size),
            !old(self).resize_needed ==> r is None,
            final(self).resize_needed == false,
            *final(self) == (FrameCoordinator { resize_needed: false, ..*old(self) }),
    {
        if self.resize_needed {
            self.resize_needed = false;
            Some(self.window_size)
        } else {
            None
        }
    }

    /// After a rebuild the chain may own a different number of images.
    pub fn set_image_count(&mut self, image_count: u32)
        requires
            coordinator_wf(*old(self)),
            old(self).step is WaitForSlot,
        ensures
            coordinator_wf(*final(self)),
            *final(self) == (FrameCoordinator { image_count, ..*old(self) }),
    {
        self.image_count = image_count;
    }
}

/// Ring-slot safety: whenever the protocol permits recording into the
/// current slot's command buffers, that slot's fence has been observed
/// signaled, so no commands are ever recorded into a slot whose prior
/// work is still in flight.
pub proof fn ring_slot_safety(c: FrameCoordinator)
    requires
        coordinator_wf(c),
        c.step is RecordCommands || c.step is Submit,
    ensures
        c.sync.in_flight_fences@[c.current_frame as int] == true,
{
}

} // verus!
