//! Command-buffer pooling.  A group owns a pool of command buffers,
//! identified here by their index in the pool, and hands out buffers
//! through a cursor that is rewound each frame: the pool only grows,
//! so steady-state frames allocate nothing.

use vstd::prelude::*;
use crate::device::QueueFamilyIndices;

verus! {

/// Whether a command buffer can be submitted directly or only executed
/// from within another command buffer.
#[derive(Debug, Clone, Copy, PartialEq, Eq, Structural)]
pub enum CommandBufferLevel {
    Primary,
    Secondary,
}

/// A pool of command buffers bound to one in-flight frame.  Buffers are
/// recorded once per frame and reused: `reset_command_group` rewinds
/// the cursor without destroying buffers, and `allocate_command_buffers`
/// grows the pool only when more buffers are requested than exist.
#[derive(Debug, Clone)]
pub struct FrameBoundCommandGroup {
    /// How many command buffers the pool physically holds.
    pub pool_size: u32,
    /// The cursor: buffers below it are handed out for the current frame.
    pub buffer_id: u32,
    pub level: CommandBufferLevel,
    pub frame_id: u64,
}

/// The cursor never passes the end of the pool.
pub open spec fn group_wf(g: FrameBoundCommandGroup) -> bool {
    g.buffer_id <= g.pool_size
}

impl FrameBoundCommandGroup {
    /// A fresh group: an empty pool whose command pool is created on the
    /// graphics queue family.
    pub fn new(queue_family: &QueueFamilyIndices, level: CommandBufferLevel, frame_id: u64) -> (r:
        FrameBoundCommandGroup)
        requires
            queue_family.graphics_family is Some,
        ensures
            r.pool_size == 0,
            r.buffer_id == 0,
            r.level == level,
            r.frame_id == frame_id,
            group_wf(r),
    {
        FrameBoundCommandGroup { pool_size: 0, buffer_id: 0, level, frame_id }
    }

    /// Hand out `count` buffer indices starting at the cursor, reusing
    /// pooled buffers first and growing the pool by exactly what is
    /// missing.
    pub fn allocate_command_buffers(&mut self, count: u32) -> (r: Vec<u32>)
        requires
            group_wf(*old(self)),
            old(self).buffer_id + count <= u32::MAX,
        ensures
            group_wf(*final(self)),
            final(self).buffer_id == old(self).buffer_id + count,
            final(self).pool_size == if old(self).buffer_id + count > old(self).pool_size {
                (old(self).buffer_id + count) as u32
            } else {
                old(self).pool_size
            },
            final(self).level == old(self).level,
            final(self).frame_id == old(self).frame_id,
            r@.len() == count,
            forall|k: int| 0 <= k < count ==> #[trigger] r@[k] == old(self).buffer_id + k,
    {
        let mut result: Vec<u32> = Vec::new();
        let available_count = self.pool_size - self.buffer_id;
        let using_count = if available_count < count {
            available_count
        } else {
            count
        };
        let mut i: u32 = 0;
        while i < using_count
            invariant
                i <= using_count,
                self.buffer_id + count <= u32::MAX,
                using_count <= count,
                result@.len() == i,
                forall|k: int| 0 <= k < i ==> #[trigger] result@[k] == self.buffer_id + k,
            decreases using_count - i,
        {
            result.push(i + self.buffer_id);
            i += 1;
        }
        let remain_count = count - using_count;
        if remain_count > 0 {
            let mut j: u32 = 0;
            while j < remain_count
                invariant
                    j <= remain_count,
                    self.buffer_id + count <= u32::MAX,
                    using_count + remain_count == count,
                    result@.len() == using_count + j,
                    forall|k: int| 0 <= k < using_count + j ==> #[trigger] result@[k]
                        == self.buffer_id + k,
                decreases remain_count - j,
            {
                result.push(self.buffer_id + using_count + j);
                j += 1;
            }
            self.pool_size = self.buffer_id + count;
        }
        self.buffer_id = self.buffer_id + count;
        result
    }

    /// Return every buffer to the pool without destroying any: only the
    /// cursor is rewound.
    pub fn reset_command_group(&mut self)
        ensures
            final(self).buffer_id == 0,
            final(self).pool_size == old(self).pool_size,
            final(self).level == old(self).level,
            final(self).frame_id == old(self).frame_id,
            group_wf(*final(self)),
    {
        self.buffer_id = 0;
    }

    /// Rebind the group to a new frame.
    pub fn reset_frame(&mut self, frame_id: u64)
        ensures
            final(self).frame_id == frame_id,
            final(self).pool_size == old(self).pool_size,
            final(self).buffer_id == old(self).buffer_id,
            final(self).level == old(self).level,
    {
        self.frame_id = frame_id;
    }

    /// Destroy the pool and everything in it.
    pub fn destroy_group(&mut self)
        ensures
            final(self).pool_size == 0,
            final(self).buffer_id == 0,
            final(self).frame_id == 0,
            final(self).level == old(self).level,
            group_wf(*final(self)),
    {
        self.pool_size = 0;
        self.buffer_id = 0;
        self.frame_id = 0;
    }
}

/// A pool plus a dedicated fence for work that must finish before the
/// caller proceeds: submit, block on the fence, then reset everything.
#[derive(Debug, Clone)]
pub struct OneTimeSubmitCommandGroup {
    pub pool_size: u32,
    pub buffer_id: u32,
    pub level: CommandBufferLevel,
    /// Whether the dedicated fence is currently signaled.
    pub fence_signaled: bool,
}

pub open spec fn one_time_group_wf(g: OneTimeSubmitCommandGroup) -> bool {
    g.buffer_id <= g.pool_size
}

impl OneTimeSubmitCommandGroup {
    /// A fresh group; its fence starts unsignaled.
    pub fn new(queue_family: &QueueFamilyIndices, level: CommandBufferLevel) -> (r:
        OneTimeSubmitCommandGroup)
        requires
            queue_family.graphics_family is Some,
        ensures
            r.pool_size == 0,
            r.buffer_id == 0,
            r.level == level,
            r.fence_signaled == false,
            one_time_group_wf(r),
    {
        OneTimeSubmitCommandGroup { pool_size: 0, buffer_id: 0, level, fence_signaled: false }
    }

    /// Hand out `count` buffer indices starting at the cursor, reusing
    /// pooled buffers first and growing the pool by exactly what is
    /// missing.
    pub fn allocate_command_buffers(&mut self, count: u32) -> (r: Vec<u32>)
        requires
            one_time_group_wf(*old(self)),
            old(self).buffer_id + count <= u32::MAX,
        ensures
            one_time_group_wf(*final(self)),
            final(self).buffer_id == old(self).buffer_id + count,
            final(self).pool_size == if old(self).buffer_id + count > old(self).pool_size {
                (old(self).buffer_id + count) as u32
            } else {
                old(self).pool_size
            },
            final(self).level == old(self).level,
            final(self).fence_signaled == old(self).fence_signaled,
            r@.len() == count,
            forall|k: int| 0 <= k < count ==> #[trigger] r@[k] == old(self).buffer_id + k,
    {
        let mut result: Vec<u32> = Vec::new();
        let available_count = self.pool_size - self.buffer_id;
        let using_count = if available_count < count {
            available_count
        } else {
            count
        };
        let mut i: u32 = 0;
        while i < using_count
            invariant
                i <= using_count,
                self.buffer_id + count <= u32::MAX,
                using_count <= count,
                result@.len() == i,
                forall|k: int| 0 <= k < i ==> #[trigger] result@[k] == self.buffer_id + k,
            decreases using_count - i,
        {
            result.push(i + self.buffer_id);
            i += 1;
        }
        let remain_count = count - using_count;
        if remain_count > 0 {
            let mut j: u32 = 0;
            while j < remain_count
                invariant
                    j <= remain_count,
                    self.buffer_id + count <= u32::MAX,
                    using_count + remain_count == count,
                    result@.len() == using_count + j,
                    forall|k: int| 0 <= k < using_count + j ==> #[trigger] result@[k]
                        == self.buffer_id + k,
                decreases remain_count - j,
            {
                result.push(self.buffer_id + using_count + j);
                j += 1;
            }
            self.pool_size = self.buffer_id + count;
        }
        self.buffer_id = self.buffer_id + count;
        result
    }

    /// Submit every allocated buffer, block until the fence reports the
    /// GPU done, then reset the fence and the pool.  On return the
    /// submitted work has completed, so sources it read may be reused
    /// or freed at once.
    pub fn submit_and_wait(&mut self)
        requires
            one_time_group_wf(*old(self)),
        ensures
            final(self).buffer_id == 0,
            final(self).fence_signaled == false,
            final(self).pool_size == old(self).pool_size,
            final(self).level == old(self).level,
            one_time_group_wf(*final(self)),
    {
        // Submission signals the fence once the GPU finishes; the
        // blocking wait observes that, and the reset rearms it
        // unsignaled before the pool is recycled.
        self.fence_signaled = false;
        self.buffer_id = 0;
    }

    /// Destroy the pool and the fence.
    pub fn destroy_group(&mut self)
        ensures
            final(self).pool_size == 0,
            final(self).buffer_id == 0,
            final(self).fence_signaled == false,
            final(self).level == old(self).level,
            one_time_group_wf(*final(self)),
    {
        self.pool_size = 0;
        self.buffer_id = 0;
        self.fence_signaled = false;
    }
}

} // verus!
