//! GPU buffers and the staged upload path.  A buffer is modelled by the
//! bytes its memory holds; the allocator is modelled by how many of its
//! allocations are still live, so that explicit frees are visible in
//! every contract.

use vstd::prelude::*;
use crate::commands::OneTimeSubmitCommandGroup;

verus! {

/// Where an allocation lives: fast device-local memory the CPU cannot
/// write, or host-visible memory it can.
#[derive(Debug, Clone, Copy, PartialEq, Eq, Structural)]
pub enum MemoryLocation {
    GpuOnly,
    CpuToGpu,
    GpuToCpu,
}

pub open spec fn location_host_visible(l: MemoryLocation) -> bool {
    l != MemoryLocation::GpuOnly
}

/// The allocator that owns device memory.  Every allocation must be
/// freed back to the same allocator before the allocator itself goes.
#[derive(Debug, Clone, Copy, PartialEq, Eq, Structural)]
pub struct Allocator {
    /// Distinguishes this allocator from any other.
    pub id: u64,
    /// Allocations created and not yet freed.
    pub live_allocations: u64,
}

impl Allocator {
    pub fn new(id: u64) -> (r: Allocator)
        ensures
            r.id == id,
            r.live_allocations == 0,
    {
        Allocator { id, live_allocations: 0 }
    }
}

/// A device memory allocation bound to a buffer handle, modelled by the
/// bytes the memory holds.
#[derive(Debug, Clone)]
pub struct GPUBuffer {
    /// The bytes of the allocation; its length is the buffer size.
    pub contents: Vec<u8>,
    /// Whether the CPU can write the memory through a mapped pointer.
    pub host_visible: bool,
    /// The allocator that made the allocation.
    pub allocator_id: u64,
}

impl GPUBuffer {
    /// Allocate memory for a buffer of `buffer_size` bytes and bind it.
    /// The memory starts out with undefined contents; only its length
    /// is promised.
    pub fn create_gpu_buffer(
        allocator: &mut Allocator,
        buffer_size: usize,
        memory_location: MemoryLocation,
    ) -> (r: GPUBuffer)
        requires
            old(allocator).live_allocations < u64::MAX,
        ensures
            r.contents@.len() == buffer_size,
            r.host_visible == location_host_visible(memory_location),
            r.allocator_id == old(allocator).id,
            final(allocator).id == old(allocator).id,
            final(allocator).live_allocations == old(allocator).live_allocations + 1,
    {
        let mut contents: Vec<u8> = Vec::new();
        let mut i: usize = 0;
        while i < buffer_size
            invariant
                i <= buffer_size,
                contents@.len() == i,
            decreases buffer_size - i,
        {
            contents.push(0);
            i += 1;
        }
        allocator.live_allocations = allocator.live_allocations + 1;
        GPUBuffer { contents, host_visible: location_host_visible_exec(memory_location), allocator_id: allocator.id }
    }

    /// Free the buffer and its allocation.  The allocator must be the
    /// one that created the allocation.
    pub fn destroy_gpu_buffer(gpu_buffer: GPUBuffer, allocator: &mut Allocator)
        requires
            gpu_buffer.allocator_id == old(allocator).id,
            old(allocator).live_allocations > 0,
        ensures
            final(allocator).id == old(allocator).id,
            final(allocator).live_allocations == old(allocator).live_allocations - 1,
    {
        allocator.live_allocations = allocator.live_allocations - 1;
    }

    /// The recorded buffer-to-buffer copy: once the commands execute,
    /// the destination holds the source's bytes, the copy being sized
    /// by the source.
    pub fn cmd_copy_buffer(src_buffer: &GPUBuffer, dst_buffer: &mut GPUBuffer)
        requires
            src_buffer.contents@.len() == old(dst_buffer).contents@.len(),
        ensures
            final(dst_buffer).contents@ == src_buffer.contents@,
            final(dst_buffer).host_visible == old(dst_buffer).host_visible,
            final(dst_buffer).allocator_id == old(dst_buffer).allocator_id,
    {
        let mut copied: Vec<u8> = Vec::new();
        let mut i: usize = 0;
        while i < src_buffer.contents.len()
            invariant
                i <= src_buffer.contents@.len(),
                copied@ == src_buffer.contents@.take(i as int),
            decreases src_buffer.contents@.len() - i,
        {
            copied.push(src_buffer.contents[i]);
            proof {
                assert(copied@ =~= src_buffer.contents@.take(i + 1));
            }
            i += 1;
        }
        proof {
            assert(copied@ =~= src_buffer.contents@);
        }
        dst_buffer.contents = copied;
    }
}

fn location_host_visible_exec(l: MemoryLocation) -> (r: bool)
    ensures
        r == location_host_visible(l),
{
    match l {
        MemoryLocation::GpuOnly => false,
        MemoryLocation::CpuToGpu => true,
        MemoryLocation::GpuToCpu => true,
    }
}

/// Write bytes through a host-visible buffer's mapped pointer.
pub fn write_mapped_bytes(buffer: &mut GPUBuffer, data: &Vec<u8>)
    requires
        old(buffer).host_visible,
        data@.len() == old(buffer).contents@.len(),
    ensures
        final(buffer).contents@ == data@,
        final(buffer).host_visible == old(buffer).host_visible,
        final(buffer).allocator_id == old(buffer).allocator_id,
{
    let mut written: Vec<u8> = Vec::new();
    let mut i: usize = 0;
    while i < data.len()
        invariant
            i <= data@.len(),
            written@ == data@.take(i as int),
        decreases data@.len() - i,
    {
        written.push(data[i]);
        proof {
            assert(written@ =~= data@.take(i + 1));
        }
        i += 1;
    }
    proof {
        assert(written@ =~= data@);
    }
    buffer.contents = written;
}

/// The staged upload: create a host-visible staging buffer, write the
/// vertex bytes into its mapped memory, record a copy into a fresh
/// device-local buffer, submit and block until the copy completes, then
/// free the staging buffer.  On return the device-local buffer holds
/// exactly the source bytes and only that one allocation remains live
/// beyond what the caller already had.
pub fn upload_vertex_buffer_data_through_tmp_command(
    allocator: &mut Allocator,
    tmp_command_group: &mut OneTimeSubmitCommandGroup,
    data: &Vec<u8>,
) -> (r: GPUBuffer)
    requires
        old(allocator).live_allocations + 2 <= u64::MAX,
        crate::commands::one_time_group_wf(*old(tmp_command_group)),
        old(tmp_command_group).buffer_id < u32::MAX,
    ensures
        r.contents@ == data@,
        !r.host_visible,
        r.allocator_id == old(allocator).id,
        final(allocator).id == old(allocator).id,
        final(allocator).live_allocations == old(allocator).live_allocations + 1,
        final(tmp_command_group).buffer_id == 0,
        final(tmp_command_group).fence_signaled == false,
{
    let mut staging_buffer = GPUBuffer::create_gpu_buffer(
        allocator,
        data.len(),
        MemoryLocation::CpuToGpu,
    );
    write_mapped_bytes(&mut staging_buffer, data);
    let mut vertex_buffer = GPUBuffer::create_gpu_buffer(
        allocator,
        data.len(),
        MemoryLocation::GpuOnly,
    );
    let _copy_commands = tmp_command_group.allocate_command_buffers(1);
    GPUBuffer::cmd_copy_buffer(&staging_buffer, &mut vertex_buffer);
    // The blocking submit is the barrier that makes freeing the staging
    // buffer safe immediately afterwards.
    tmp_command_group.submit_and_wait();
    GPUBuffer::destroy_gpu_buffer(staging_buffer, allocator);
    vertex_buffer
}

} // verus!
