//! Command recording: pools, command buffers and the GPU future runtime.
//!
//! A GPU future is a suspendable recording.  Each poll records commands
//! through the context; before an access that conflicts with the tracked
//! state it registers a barrier into the context's pending set and yields.
//! The runtime drains the pending set with exactly one pipeline barrier
//! carrying the whole union, then polls again, so consecutive dependent
//! accesses between two yields cost one barrier, and no emitted barrier is
//! ever empty.

use vstd::prelude::*;
use crate::access::{
    after_read_spec, after_write_spec, read_barrier_spec, write_barrier_spec, Access,
    ImageBarrier, MemoryBarrier, ResourceState,
};
use crate::error::SchedulerError;

verus! {

/// One recorded driver command.
pub enum Command {
    /// A single pipeline barrier carrying the pending union.
    PipelineBarrier { memory: Option<MemoryBarrier>, images: Vec<ImageBarrier> },
    /// A buffer copy over `(src_offset, dst_offset, size)` regions.
    CopyBuffer { src: usize, dst: usize, regions: Vec<(u64, u64, u64)> },
    /// Opaque recorded work (a draw, a dispatch, ...), tagged by the
    /// caller.
    Work { tag: u64 },
}

/// No emitted pipeline barrier is empty.
pub open spec fn command_ok(c: Command) -> bool {
    match c {
        Command::PipelineBarrier { memory, images } => memory is Some || images.len() > 0,
        _ => true,
    }
}

/// Merge a new memory barrier into the pending aggregate by mask union.
pub open spec fn merge_barrier_spec(agg: Option<MemoryBarrier>, b: MemoryBarrier) -> Option<
    MemoryBarrier,
> {
    match agg {
        None => Some(b),
        Some(a) => Some(
            MemoryBarrier {
                src_stage: a.src_stage | b.src_stage,
                src_access: a.src_access | b.src_access,
                dst_stage: a.dst_stage | b.dst_stage,
                dst_access: a.dst_access | b.dst_access,
            },
        ),
    }
}

/// The recording context handed to a GPU future: tracked resource states,
/// the commands recorded so far, and the pending barrier set.
pub struct RecordContext {
    pub resources: Vec<ResourceState>,
    pub commands: Vec<Command>,
    pub pending_memory: Option<MemoryBarrier>,
    pub pending_images: Vec<ImageBarrier>,
}

impl RecordContext {
    /// Every recorded pipeline barrier is non-empty.
    pub open spec fn wf(self) -> bool {
        forall|i: int| 0 <= i < self.commands.len() ==> command_ok(#[trigger] self.commands[i])
    }

    pub fn new(resources: Vec<ResourceState>) -> (r: RecordContext)
        ensures
            r.wf(),
            r.resources == resources,
            r.commands.len() == 0,
            r.pending_memory is None,
            r.pending_images.len() == 0,
    {
        RecordContext {
            resources,
            commands: Vec::new(),
            pending_memory: None,
            pending_images: Vec::new(),
        }
    }

    /// Declares a read of a resource: any required barrier joins the
    /// pending union, the tracked state advances by the read rule.
    pub fn read(&mut self, res: usize, acc: Access)
        requires
            res < old(self).resources.len(),
        ensures
            final(self).resources@ == old(self).resources@.update(
                res as int,
                after_read_spec(old(self).resources[res as int], acc),
            ),
            final(self).pending_memory == (match read_barrier_spec(
                old(self).resources[res as int],
                acc,
            ) {
                Some(b) => merge_barrier_spec(old(self).pending_memory, b),
                None => old(self).pending_memory,
            }),
            final(self).commands == old(self).commands,
            final(self).pending_images == old(self).pending_images,
            old(self).wf() ==> final(self).wf(),
    {
        let st = &mut self.resources[res];
        let b = crate::access::track_read(st, acc);
        if let Some(b) = b {
            self.merge_pending(b);
        }
    }

    /// Declares a write of a resource.
    pub fn write(&mut self, res: usize, acc: Access)
        requires
            res < old(self).resources.len(),
        ensures
            final(self).resources@ == old(self).resources@.update(
                res as int,
                after_write_spec(old(self).resources[res as int], acc),
            ),
            final(self).pending_memory == (match write_barrier_spec(
                old(self).resources[res as int],
                acc,
            ) {
                Some(b) => merge_barrier_spec(old(self).pending_memory, b),
                None => old(self).pending_memory,
            }),
            final(self).commands == old(self).commands,
            final(self).pending_images == old(self).pending_images,
            old(self).wf() ==> final(self).wf(),
    {
        let st = &mut self.resources[res];
        let b = crate::access::track_write(st, acc);
        if let Some(b) = b {
            self.merge_pending(b);
        }
    }

    fn merge_pending(&mut self, b: MemoryBarrier)
        ensures
            final(self).pending_memory == merge_barrier_spec(old(self).pending_memory, b),
            final(self).resources == old(self).resources,
            final(self).commands == old(self).commands,
            final(self).pending_images == old(self).pending_images,
    {
        self.pending_memory = match self.pending_memory {
            None => Some(b),
            Some(a) => Some(
                MemoryBarrier {
                    src_stage: a.src_stage | b.src_stage,
                    src_access: a.src_access | b.src_access,
                    dst_stage: a.dst_stage | b.dst_stage,
                    dst_access: a.dst_access | b.dst_access,
                },
            ),
        };
    }

    /// Declares an image access with a required layout; a mismatch queues
    /// an image barrier with the transition.
    pub fn use_image(&mut self, res: usize, acc: Access, new_layout: u32)
        requires
            res < old(self).resources.len(),
        ensures
            final(self).resources@.len() == old(self).resources@.len(),
            final(self).commands == old(self).commands,
            old(self).resources[res as int].layout != new_layout ==> final(self).pending_images@.len() == old(self).pending_images@.len() + 1,
            old(self).resources[res as int].layout == new_layout ==> (final(self).resources@
                == old(self).resources@ && final(self).pending_memory == old(self).pending_memory
                && final(self).pending_images == old(self).pending_images),
            old(self).wf() ==> final(self).wf(),
    {
        let ghost st0 = self.resources@;
        let st = &mut self.resources[res];
        let b = crate::access::layout_transition(st, acc, new_layout);
        if let Some(b) = b {
            self.pending_images.push(b);
        } else {
            proof {
                assert(self.resources@ =~= st0);
            }
        }
    }

    /// Records opaque work.
    pub fn record_work(&mut self, tag: u64)
        ensures
            final(self).commands@ == old(self).commands@.push(Command::Work { tag }),
            final(self).resources == old(self).resources,
            final(self).pending_memory == old(self).pending_memory,
            final(self).pending_images == old(self).pending_images,
            old(self).wf() ==> final(self).wf(),
    {
        self.commands.push(Command::Work { tag });
        proof {
            assert(old(self).wf() ==> self.wf()) by {
                if old(self).wf() {
                    assert forall|i: int| 0 <= i < self.commands.len() implies command_ok(
                        #[trigger] self.commands[i],
                    ) by {
                        if i < self.commands.len() - 1 {
                            assert(self.commands[i] == old(self).commands[i]);
                        }
                    }
                }
            }
        }
    }

    /// Records a buffer copy command.
    pub fn record_copy(&mut self, src: usize, dst: usize, regions: Vec<(u64, u64, u64)>)
        ensures
            final(self).commands@ == old(self).commands@.push(
                Command::CopyBuffer { src, dst, regions },
            ),
            final(self).resources == old(self).resources,
            final(self).pending_memory == old(self).pending_memory,
            final(self).pending_images == old(self).pending_images,
            old(self).wf() ==> final(self).wf(),
    {
        self.commands.push(Command::CopyBuffer { src, dst, regions });
        proof {
            assert(old(self).wf() ==> self.wf()) by {
                if old(self).wf() {
                    assert forall|i: int| 0 <= i < self.commands.len() implies command_ok(
                        #[trigger] self.commands[i],
                    ) by {
                        if i < self.commands.len() - 1 {
                            assert(self.commands[i] == old(self).commands[i]);
                        }
                    }
                }
            }
        }
    }

    /// Whether any barrier is pending.
    pub fn has_barriers(&self) -> (r: bool)
        ensures
            r == (self.pending_memory is Some || self.pending_images.len() > 0),
    {
        self.pending_memory.is_some() || self.pending_images.len() > 0
    }

    /// Drains the pending set: when anything is pending, exactly one
    /// pipeline barrier carrying the whole union is recorded; an empty
    /// pending set records nothing.
    pub fn flush_barriers(&mut self)
        ensures
            final(self).resources == old(self).resources,
            final(self).pending_memory is None,
            final(self).pending_images.len() == 0,
            (old(self).pending_memory is Some || old(self).pending_images.len() > 0) ==> final(self).commands@ == old(self).commands@.push(
                Command::PipelineBarrier {
                    memory: old(self).pending_memory,
                    images: old(self).pending_images,
                },
            ),
            (old(self).pending_memory is None && old(self).pending_images.len() == 0) ==> final(self).commands == old(self).commands,
            old(self).wf() ==> final(self).wf(),
    {
        if self.pending_memory.is_some() || self.pending_images.len() > 0 {
            let memory = self.pending_memory.take();
            let mut images = Vec::new();
            core::mem::swap(&mut images, &mut self.pending_images);
            self.commands.push(Command::PipelineBarrier { memory, images });
            proof {
                assert(old(self).wf() ==> self.wf()) by {
                    if old(self).wf() {
                        assert forall|i: int| 0 <= i < self.commands.len() implies command_ok(
                            #[trigger] self.commands[i],
                        ) by {
                            if i < self.commands.len() - 1 {
                                assert(self.commands[i] == old(self).commands[i]);
                            }
                        }
                    }
                }
            }
        }
    }
}

/// The result of polling a GPU future.
pub enum FuturePoll<T> {
    Pending,
    Ready(T),
}

/// A suspendable GPU recording.  Each poll either finishes with the output
/// and the retained values, or records up to the next required barrier and
/// yields.
pub trait GpuFuture: Sized {
    type Output;

    type Retained;

    /// An upper bound on the polls still needed; it shrinks at every
    /// yield, so driving the future terminates.
    spec fn steps(&self) -> nat;

    fn poll(&mut self, ctx: &mut RecordContext) -> (r: FuturePoll<
        (Self::Output, Self::Retained),
    >)
        requires
            old(ctx).wf(),
        ensures
            final(ctx).wf(),
            final(ctx).resources@.len() == old(ctx).resources@.len(),
            r is Pending ==> final(self).steps() < old(self).steps(),
    ;
}

/// Lifecycle of a command buffer.
#[derive(Clone, Copy, Debug, PartialEq, Eq, Structural)]
pub enum CommandBufferState {
    Initial,
    Recording,
    Executable,
    Pending,
    Invalid,
}

/// A command buffer: its pool, the pool generation it was allocated under,
/// its recording context and the timeline value its submission signals.
pub struct CommandBuffer {
    pub pool: u64,
    pub generation: u64,
    pub state: CommandBufferState,
    pub signal_value: u64,
    pub ctx: RecordContext,
}

/// A per-(queue, frame-slot) command pool with a generation guard.
pub struct CommandPool {
    pub raw: u64,
    pub generation: u64,
    pub next_signal: u64,
}

/// A command buffer may be used only with its own pool, in its own
/// generation.
pub open spec fn buffer_matches_pool(cb: CommandBuffer, pool: CommandPool) -> bool {
    cb.pool == pool.raw && cb.generation == pool.generation
}

/// What a driven future hands back: the output, the values that must
/// outlive the submission, and the timeline point to wait for before
/// dropping them.
pub struct GPUFutureSubmissionStatus<Returned, Retained> {
    pub return_value: Returned,
    pub retained_values: Retained,
    pub timeline: u64,
    pub wait_value: u64,
}

impl CommandPool {
    pub fn new(raw: u64) -> (r: CommandPool)
        ensures
            r.raw == raw,
            r.generation == 0,
            r.next_signal == 0,
    {
        CommandPool { raw, generation: 0, next_signal: 0 }
    }

    /// Allocates a buffer in the recording state, stamped with the current
    /// generation and the next signal value.
    pub fn begin(&mut self, resources: Vec<ResourceState>) -> (cb: CommandBuffer)
        requires
            old(self).next_signal < u64::MAX,
        ensures
            buffer_matches_pool(cb, *final(self)),
            cb.state == CommandBufferState::Recording,
            cb.signal_value == old(self).next_signal + 1,
            final(self).next_signal == old(self).next_signal + 1,
            final(self).generation == old(self).generation,
            final(self).raw == old(self).raw,
            cb.ctx.wf(),
            cb.ctx.commands.len() == 0,
            cb.ctx.resources == resources,
    {
        self.next_signal = self.next_signal + 1;
        CommandBuffer {
            pool: self.raw,
            generation: self.generation,
            state: CommandBufferState::Recording,
            signal_value: self.next_signal,
            ctx: RecordContext::new(resources),
        }
    }

    /// Resets the pool: the generation advances, so every buffer allocated
    /// earlier becomes invalid for this pool.
    pub fn reset(&mut self)
        requires
            old(self).generation < u64::MAX,
        ensures
            final(self).generation == old(self).generation + 1,
            final(self).raw == old(self).raw,
            final(self).next_signal == old(self).next_signal,
            forall|cb: CommandBuffer|
                buffer_matches_pool(cb, *old(self)) ==> !buffer_matches_pool(cb, *final(self)),
    {
        self.generation = self.generation + 1;
    }

    /// Drives a future to completion on the given buffer.  Whenever the
    /// future yields, the pending barrier set is drained with one pipeline
    /// barrier.  A buffer from another pool or an older generation is
    /// rejected with `PoolGenerationMismatch`.
    pub fn record<F: GpuFuture>(
        &mut self,
        cb: &mut CommandBuffer,
        fut: F,
        timeline: u64,
    ) -> (r: Result<GPUFutureSubmissionStatus<F::Output, F::Retained>, SchedulerError>)
        requires
            old(cb).ctx.wf(),
            old(cb).state == CommandBufferState::Recording,
        ensures
            *final(self) == *old(self),
            r is Err <==> !buffer_matches_pool(*old(cb), *old(self)),
            r is Err ==> r == Result::<
                GPUFutureSubmissionStatus<F::Output, F::Retained>,
                SchedulerError,
            >::Err(SchedulerError::PoolGenerationMismatch) && *final(cb) == *old(cb),
            r matches Ok(st) ==> st.wait_value == old(cb).signal_value && st.timeline == timeline
                && final(cb).ctx.wf() && final(cb).pool == old(cb).pool && final(cb).generation
                == old(cb).generation && final(cb).signal_value == old(cb).signal_value && final(cb).state == CommandBufferState::Recording,
    {
        if !(cb.pool == self.raw && cb.generation == self.generation) {
            return Err(SchedulerError::PoolGenerationMismatch);
        }
        let mut fut = fut;
        loop
            invariant
                cb.ctx.wf(),
                cb.pool == old(cb).pool,
                cb.generation == old(cb).generation,
                cb.signal_value == old(cb).signal_value,
                cb.state == old(cb).state,
                old(cb).state == CommandBufferState::Recording,
                *self == *old(self),
                buffer_matches_pool(*old(cb), *old(self)),
            decreases fut.steps(),
        {
            match fut.poll(&mut cb.ctx) {
                FuturePoll::Ready((output, retained)) => {
                    return Ok(
                        GPUFutureSubmissionStatus {
                            return_value: output,
                            retained_values: retained,
                            timeline,
                            wait_value: cb.signal_value,
                        },
                    );
                },
                FuturePoll::Pending => {
                    cb.ctx.flush_barriers();
                },
            }
        }
    }
}

} // verus!
