//! Buffer creation plans and the buffer-copy future.
//!
//! Buffer creation is driven by the physical device's memory model.  The
//! planners below compute, as plain data, where a buffer lives, whether it
//! is mapped, and which transfer usage is added; the host performs the
//! actual allocation from the plan.  The copy future records one
//! `CopyBuffer` command with read/write access tracking; a copy with
//! explicitly empty regions is a no-op.

use vstd::prelude::*;
use crate::access::{Access, ACCESS_TRANSFER_READ, ACCESS_TRANSFER_WRITE, STAGE_COPY};
use crate::error::SchedulerError;
use crate::record::{FuturePoll, GpuFuture, RecordContext};
use crate::timeline::RetainedPool;

verus! {

/// `VK_BUFFER_USAGE_TRANSFER_SRC_BIT`.
pub const USAGE_TRANSFER_SRC: u64 = 0x1;

/// `VK_BUFFER_USAGE_TRANSFER_DST_BIT`.
pub const USAGE_TRANSFER_DST: u64 = 0x2;


/// How a buffer is shared between queue families.
pub enum SharingMode {
    /// Owned by one family at a time; ownership moves with a
    /// release/acquire barrier pair.
    Exclusive,
    /// Accessible from the listed families concurrently.
    Concurrent { queue_family_indices: Vec<u32> },
}

impl SharingMode {
    /// Whether ownership transfers are required.
    pub fn is_exclusive(&self) -> (r: bool)
        ensures
            r <==> self is Exclusive,
    {
        match self {
            SharingMode::Exclusive => true,
            SharingMode::Concurrent { .. } => false,
        }
    }
}

/// Host visibility of device-local memory.
#[derive(Clone, Copy, Debug, PartialEq, Eq, Structural)]
pub enum MemoryModel {
    Uma,
    Bar,
    ResizableBar,
    Discrete,
}

/// Where an allocation should live and how it is accessed by the host.
#[derive(Clone, Copy, Debug, PartialEq, Eq, Structural)]
pub struct BufferPlan {
    /// Usage flags, including any transfer usage the planner added.
    pub usage: u64,
    /// Prefer device-local memory (else host memory).
    pub prefer_device: bool,
    /// Persistently mapped and host-writable.
    pub mapped: bool,
    /// Host writes are sequential (else random access, cached).
    pub sequential_write: bool,
}

/// A small buffer written by the host every frame.  Device-local and
/// mapped wherever device memory is host-visible; on discrete devices it
/// becomes a host buffer with transfer-source usage for a separate staged
/// copy.
pub fn dynamic_buffer_plan(model: MemoryModel, usage: u64) -> (r: BufferPlan)
    ensures
        model != MemoryModel::Discrete ==> r == (BufferPlan {
            usage,
            prefer_device: true,
            mapped: true,
            sequential_write: true,
        }),
        model == MemoryModel::Discrete ==> r == (BufferPlan {
            usage: usage | USAGE_TRANSFER_SRC,
            prefer_device: false,
            mapped: true,
            sequential_write: true,
        }),
{
    match model {
        MemoryModel::Uma | MemoryModel::Bar | MemoryModel::ResizableBar => BufferPlan {
            usage,
            prefer_device: true,
            mapped: true,
            sequential_write: true,
        },
        MemoryModel::Discrete => BufferPlan {
            usage: usage | USAGE_TRANSFER_SRC,
            prefer_device: false,
            mapped: true,
            sequential_write: true,
        },
    }
}

/// A small device-local buffer that is the destination of occasional
/// copies.  Mapped wherever device memory is host-visible; on discrete
/// devices it stays device-local, unmapped, with transfer-destination
/// usage.
pub fn upload_buffer_plan(model: MemoryModel, usage: u64) -> (r: BufferPlan)
    ensures
        model != MemoryModel::Discrete ==> r == (BufferPlan {
            usage,
            prefer_device: true,
            mapped: true,
            sequential_write: true,
        }),
        model == MemoryModel::Discrete ==> r == (BufferPlan {
            usage: usage | USAGE_TRANSFER_DST,
            prefer_device: true,
            mapped: false,
            sequential_write: false,
        }),
{
    match model {
        MemoryModel::Uma | MemoryModel::Bar | MemoryModel::ResizableBar => BufferPlan {
            usage,
            prefer_device: true,
            mapped: true,
            sequential_write: true,
        },
        MemoryModel::Discrete => BufferPlan {
            usage: usage | USAGE_TRANSFER_DST,
            prefer_device: true,
            mapped: false,
            sequential_write: false,
        },
    }
}

/// A large device-local asset buffer with occasionally updated regions.
/// Host-visible only on unified and resizable-BAR memory; on BAR and
/// discrete devices it takes transfer-destination usage and is staged.
pub fn dynamic_asset_buffer_plan(model: MemoryModel, usage: u64) -> (r: BufferPlan)
    ensures
        (model == MemoryModel::Uma || model == MemoryModel::ResizableBar) ==> r == (BufferPlan {
            usage,
            prefer_device: true,
            mapped: true,
            sequential_write: true,
        }),
        (model == MemoryModel::Bar || model == MemoryModel::Discrete) ==> r == (BufferPlan {
            usage: usage | USAGE_TRANSFER_DST,
            prefer_device: true,
            mapped: false,
            sequential_write: false,
        }),
{
    match model {
        MemoryModel::Uma | MemoryModel::ResizableBar => BufferPlan {
            usage,
            prefer_device: true,
            mapped: true,
            sequential_write: true,
        },
        MemoryModel::Bar | MemoryModel::Discrete => BufferPlan {
            usage: usage | USAGE_TRANSFER_DST,
            prefer_device: true,
            mapped: false,
            sequential_write: false,
        },
    }
}

/// A host-cached buffer the GPU copies into and the host reads back.
pub fn readback_buffer_plan() -> (r: BufferPlan)
    ensures
        r == (BufferPlan {
            usage: USAGE_TRANSFER_DST,
            prefer_device: false,
            mapped: true,
            sequential_write: false,
        }),
{
    BufferPlan {
        usage: USAGE_TRANSFER_DST,
        prefer_device: false,
        mapped: true,
        sequential_write: false,
    }
}

/// A host staging buffer for uploads.
pub fn staging_buffer_plan() -> (r: BufferPlan)
    ensures
        r == (BufferPlan {
            usage: USAGE_TRANSFER_SRC,
            prefer_device: false,
            mapped: true,
            sequential_write: true,
        }),
{
    BufferPlan {
        usage: USAGE_TRANSFER_SRC,
        prefer_device: false,
        mapped: true,
        sequential_write: true,
    }
}

/// Whether buffer initialisation data can be written straight into the
/// destination, or must travel through a staging buffer and a copy.
pub fn upload_needs_staging(model: MemoryModel) -> (r: bool)
    ensures
        r == (model == MemoryModel::Discrete),
{
    match model {
        MemoryModel::Discrete => true,
        _ => false,
    }
}


/// A transient host allocation that failed is retried once with doubled
/// capacity; a second failure is surfaced.
pub fn realloc_retry(capacity: u64, prior_failures: u32) -> (r: Result<u64, SchedulerError>)
    requires
        capacity <= 0x7fff_ffff_ffff_ffff,
    ensures
        prior_failures == 0 ==> r == Result::<u64, SchedulerError>::Ok((capacity * 2) as u64),
        prior_failures >= 1 ==> r == Result::<u64, SchedulerError>::Err(
            SchedulerError::OutOfHostMemory,
        ),
{
    if prior_failures == 0 {
        Ok(capacity * 2)
    } else {
        Err(SchedulerError::OutOfHostMemory)
    }
}

/// Whether a host-filled buffer needs a device-local copy on this memory
/// model (device memory not host-visible for these buffers).
pub fn needs_device_copy(model: MemoryModel) -> (r: bool)
    ensures
        r == (model == MemoryModel::Discrete || model == MemoryModel::Bar),
{
    match model {
        MemoryModel::Discrete | MemoryModel::Bar => true,
        _ => false,
    }
}

/// Total vertices of a sequence of mesh sizes.
pub open spec fn total_vertices(counts: Seq<(u32, u32)>, upto: int) -> int
    decreases upto,
{
    if upto <= 0 {
        0
    } else {
        total_vertices(counts, upto - 1) + counts[upto - 1].0
    }
}

/// Total indices of a sequence of mesh sizes.
pub open spec fn total_indices(counts: Seq<(u32, u32)>, upto: int) -> int
    decreases upto,
{
    if upto <= 0 {
        0
    } else {
        total_indices(counts, upto - 1) + counts[upto - 1].1
    }
}

/// Sums per-mesh (vertex, index) counts into the sizes the shared vertex
/// and index buffers must be grown to before meshes are packed back to
/// back.
pub fn mesh_buffer_requirements(counts: &Vec<(u32, u32)>) -> (r: (u64, u64))
    requires
        counts.len() < 0x1_0000_0000,
    ensures
        r.0 as int == total_vertices(counts@, counts@.len() as int),
        r.1 as int == total_indices(counts@, counts@.len() as int),
{
    let mut vertices: u64 = 0;
    let mut indices: u64 = 0;
    let mut i: usize = 0;
    while i < counts.len()
        invariant
            counts.len() < 0x1_0000_0000,
            i <= counts.len(),
            vertices as int == total_vertices(counts@, i as int),
            indices as int == total_indices(counts@, i as int),
            vertices <= (i as u64) * 0xffff_ffff,
            indices <= (i as u64) * 0xffff_ffff,
        decreases counts.len() - i,
    {
        let (v, x) = counts[i];
        vertices = vertices + v as u64;
        indices = indices + x as u64;
        i += 1;
    }
    (vertices, indices)
}

/// A buffer copy future over tracked resources.  `regions` of `None` means
/// the whole overlapping range; `Some` empty means a no-op.
pub struct CopyBufferFuture {
    pub src: usize,
    pub dst: usize,
    pub src_size: u64,
    pub dst_size: u64,
    pub regions: Option<Vec<(u64, u64, u64)>>,
    pub done: bool,
}

/// Builds a whole-buffer copy future.
pub fn copy_buffer(src: usize, dst: usize, src_size: u64, dst_size: u64) -> (r: CopyBufferFuture)
    ensures
        r == (CopyBufferFuture {
            src,
            dst,
            src_size,
            dst_size,
            regions: None::<Vec<(u64, u64, u64)>>,
            done: false,
        }),
{
    CopyBufferFuture { src, dst, src_size, dst_size, regions: None, done: false }
}

/// Builds a copy future over explicit regions.
pub fn copy_buffer_regions(
    src: usize,
    dst: usize,
    src_size: u64,
    dst_size: u64,
    regions: Vec<(u64, u64, u64)>,
) -> (r: CopyBufferFuture)
    ensures
        r.src == src && r.dst == dst && r.src_size == src_size && r.dst_size == dst_size,
        r.regions == Some(regions),
        !r.done,
{
    CopyBufferFuture { src, dst, src_size, dst_size, regions: Some(regions), done: false }
}

impl GpuFuture for CopyBufferFuture {
    type Output = ();

    type Retained = ();

    open spec fn steps(&self) -> nat {
        if self.done {
            0
        } else {
            1
        }
    }

    /// One poll resolves the copy.  Empty explicit regions are a no-op;
    /// otherwise the source is read and the destination written at the
    /// copy stage with transfer accesses, and one copy command covering
    /// either the explicit regions or the whole overlapping range is
    /// recorded.
    fn poll(&mut self, ctx: &mut RecordContext) -> (r: FuturePoll<((), ())>)
        ensures
            r is Ready,
            (match old(self).regions {
                Some(rs) => rs.len() == 0,
                None => false,
            }) ==> *final(ctx) == *old(ctx),
            !(match old(self).regions {
                Some(rs) => rs.len() == 0,
                None => false,
            }) && old(self).src < old(ctx).resources.len() && old(self).dst < old(
                ctx,
            ).resources.len() && old(self).src != old(self).dst ==> {
                &&& final(ctx).commands@.len() == old(ctx).commands@.len() + 1
                &&& final(ctx).commands@.last() matches crate::record::Command::CopyBuffer {
                    src,
                    dst,
                    ..
                } && src == old(self).src && dst == old(self).dst
                &&& final(ctx).resources[old(self).dst as int].last_writer == Some(
                    Access { stage: STAGE_COPY, access: ACCESS_TRANSFER_WRITE },
                )
            },
    {
        let no_op = match &self.regions {
            Some(rs) => rs.len() == 0,
            None => false,
        };
        if no_op {
            self.done = true;
            return FuturePoll::Ready(((), ()));
        }
        if self.src < ctx.resources.len() && self.dst < ctx.resources.len() && self.src
            != self.dst {
            ctx.read(self.src, Access { stage: STAGE_COPY, access: ACCESS_TRANSFER_READ });
            ctx.write(self.dst, Access { stage: STAGE_COPY, access: ACCESS_TRANSFER_WRITE });
            let regions: Vec<(u64, u64, u64)> = match &self.regions {
                Some(rs) => {
                    let mut copy: Vec<(u64, u64, u64)> = Vec::new();
                    let mut i: usize = 0;
                    while i < rs.len()
                        invariant
                            i <= rs.len(),
                        decreases rs.len() - i,
                    {
                        copy.push(rs[i]);
                        i += 1;
                    }
                    copy
                },
                None => {
                    let size = if self.src_size < self.dst_size {
                        self.src_size
                    } else {
                        self.dst_size
                    };
                    let mut whole: Vec<(u64, u64, u64)> = Vec::new();
                    whole.push((0, 0, size));
                    whole
                },
            };
            ctx.record_copy(self.src, self.dst, regions);
        }
        self.done = true;
        FuturePoll::Ready(((), ()))
    }
}


/// Uploads through a staging buffer on devices whose device-local memory
/// is not host-visible: records the staging-to-destination copy, leaves
/// the destination's last writer at the transfer-write copy access, and
/// retains the staging buffer until the submission's timeline value
/// completes.
pub fn record_staged_upload(
    ctx: &mut RecordContext,
    staging: usize,
    dst: usize,
    size: u64,
    retained: &mut RetainedPool<usize>,
    wait_value: u64,
)
    requires
        staging < old(ctx).resources.len(),
        dst < old(ctx).resources.len(),
        staging != dst,
        old(ctx).wf(),
    ensures
        final(ctx).wf(),
        final(ctx).commands@.len() == old(ctx).commands@.len() + 1,
        final(ctx).commands@.last() matches crate::record::Command::CopyBuffer { src, dst: d, .. }
            && src == staging && d == dst,
        final(ctx).resources[dst as int].last_writer == Some(
            Access { stage: STAGE_COPY, access: ACCESS_TRANSFER_WRITE },
        ),
        final(retained).entries@.len() == old(retained).entries@.len() + 1,
        final(retained).entries@.last().wait_value == wait_value,
        final(retained).entries@.last().value == staging,
{
    let mut fut = copy_buffer(staging, dst, size, size);
    let r = fut.poll(ctx);
    retained.retain(wait_value, staging);
}

} // verus!
