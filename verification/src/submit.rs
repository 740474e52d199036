//! Queue submission assembly.
//!
//! A cluster's submission system closes its command buffer and performs one
//! queue submission whose waits are the per-frame binary waits plus the
//! timeline waits derived from incoming cluster edges, and whose signals
//! are the cluster's own timeline value plus the binary signals.  Binary
//! semaphore operations carry value zero; timeline operations carry the
//! frame index, so a wait on a predecessor's timeline never exceeds the
//! value that predecessor signals in the same frame.

use vstd::prelude::*;
use crate::access::Access;
use crate::timeline::Timeline;

verus! {

/// An operation on a semaphore: which semaphore, and the pipeline stages
/// it gates.
#[derive(Clone, Copy, Debug, PartialEq, Eq, Structural)]
pub struct SemaphoreOp {
    pub semaphore: u64,
    pub access: Access,
}

/// A wait on a one-shot binary semaphore (swapchain acquire and the like).
#[derive(Clone, Copy, Debug, PartialEq, Eq, Structural)]
pub struct BinarySemaphoreWaitOp {
    pub semaphore: u64,
    pub access: Access,
}


/// Mints the signal descriptor of a submission on this timeline's queue.
pub fn signal_op(t: &Timeline, stage: u64) -> (r: SemaphoreOp)
    ensures
        r.semaphore == t.queue as u64,
        r.access == (Access { stage, access: 0 }),
{
    SemaphoreOp { semaphore: t.queue as u64, access: Access { stage, access: 0 } }
}

/// Mints a wait descriptor on this timeline, for use in another queue's
/// submission.
pub fn wait_op(t: &Timeline, stage: u64) -> (r: SemaphoreOp)
    ensures
        r.semaphore == t.queue as u64,
        r.access == (Access { stage, access: 0 }),
{
    SemaphoreOp { semaphore: t.queue as u64, access: Access { stage, access: 0 } }
}

/// One semaphore entry of a built submission.
#[derive(Clone, Copy, Debug, PartialEq, Eq, Structural)]
pub struct SemaphoreSubmitInfo {
    pub semaphore: u64,
    pub value: u64,
    pub stage_mask: u64,
}

/// Everything a queue-operation system sees for the current frame.
pub struct QueueContext {
    pub queue: usize,
    pub frame_index: u64,
    pub binary_signals: Vec<SemaphoreOp>,
    pub binary_waits: Vec<BinarySemaphoreWaitOp>,
    pub timeline_signals: Vec<SemaphoreOp>,
    pub timeline_waits: Vec<SemaphoreOp>,
}

/// A fully assembled submission: waits, one command buffer, signals.
pub struct SubmitDescription {
    pub waits: Vec<SemaphoreSubmitInfo>,
    pub command_buffer: u64,
    pub signals: Vec<SemaphoreSubmitInfo>,
}

/// The semaphore entries a context's submission must signal: binary
/// signals at value zero, then timeline signals at the frame index.
pub open spec fn signals_spec(ctx: QueueContext) -> Seq<SemaphoreSubmitInfo> {
    ctx.binary_signals@.map_values(
        |op: SemaphoreOp|
            SemaphoreSubmitInfo { semaphore: op.semaphore, value: 0, stage_mask: op.access.stage },
    ) + ctx.timeline_signals@.map_values(
        |op: SemaphoreOp|
            SemaphoreSubmitInfo {
                semaphore: op.semaphore,
                value: ctx.frame_index,
                stage_mask: op.access.stage,
            },
    )
}

/// The semaphore entries a context's submission must wait on: binary waits
/// at value zero, then timeline waits at the frame index.
pub open spec fn waits_spec(ctx: QueueContext) -> Seq<SemaphoreSubmitInfo> {
    ctx.binary_waits@.map_values(
        |op: BinarySemaphoreWaitOp|
            SemaphoreSubmitInfo { semaphore: op.semaphore, value: 0, stage_mask: op.access.stage },
    ) + ctx.timeline_waits@.map_values(
        |op: SemaphoreOp|
            SemaphoreSubmitInfo {
                semaphore: op.semaphore,
                value: ctx.frame_index,
                stage_mask: op.access.stage,
            },
    )
}

/// Builds the one submission of a cluster for this frame.
pub fn build_submit_description(ctx: &QueueContext, command_buffer: u64) -> (r: SubmitDescription)
    ensures
        r.waits@ == waits_spec(*ctx),
        r.signals@ == signals_spec(*ctx),
        r.command_buffer == command_buffer,
{
    let mut waits: Vec<SemaphoreSubmitInfo> = Vec::new();
    let mut i: usize = 0;
    while i < ctx.binary_waits.len()
        invariant
            i <= ctx.binary_waits.len(),
            waits@ == ctx.binary_waits@.subrange(0, i as int).map_values(
                |op: BinarySemaphoreWaitOp|
                    SemaphoreSubmitInfo {
                        semaphore: op.semaphore,
                        value: 0,
                        stage_mask: op.access.stage,
                    },
            ),
        decreases ctx.binary_waits.len() - i,
    {
        let op = &ctx.binary_waits[i];
        waits.push(
            SemaphoreSubmitInfo { semaphore: op.semaphore, value: 0, stage_mask: op.access.stage },
        );
        proof {
            assert(ctx.binary_waits@.subrange(0, i as int + 1) =~= ctx.binary_waits@.subrange(
                0,
                i as int,
            ).push(ctx.binary_waits@[i as int]));
            assert(waits@ =~= ctx.binary_waits@.subrange(0, i as int + 1).map_values(
                |op: BinarySemaphoreWaitOp|
                    SemaphoreSubmitInfo {
                        semaphore: op.semaphore,
                        value: 0,
                        stage_mask: op.access.stage,
                    },
            ));
        }
        i += 1;
    }
    let mut i: usize = 0;
    while i < ctx.timeline_waits.len()
        invariant
            i <= ctx.timeline_waits.len(),
            waits@ == ctx.binary_waits@.map_values(
                |op: BinarySemaphoreWaitOp|
                    SemaphoreSubmitInfo {
                        semaphore: op.semaphore,
                        value: 0,
                        stage_mask: op.access.stage,
                    },
            ) + ctx.timeline_waits@.subrange(0, i as int).map_values(
                |op: SemaphoreOp|
                    SemaphoreSubmitInfo {
                        semaphore: op.semaphore,
                        value: ctx.frame_index,
                        stage_mask: op.access.stage,
                    },
            ),
        decreases ctx.timeline_waits.len() - i,
    {
        let op = &ctx.timeline_waits[i];
        waits.push(
            SemaphoreSubmitInfo {
                semaphore: op.semaphore,
                value: ctx.frame_index,
                stage_mask: op.access.stage,
            },
        );
        proof {
            assert(ctx.timeline_waits@.subrange(0, i as int + 1) =~= ctx.timeline_waits@.subrange(
                0,
                i as int,
            ).push(ctx.timeline_waits@[i as int]));
            assert(waits@ =~= ctx.binary_waits@.map_values(
                |op: BinarySemaphoreWaitOp|
                    SemaphoreSubmitInfo {
                        semaphore: op.semaphore,
                        value: 0,
                        stage_mask: op.access.stage,
                    },
            ) + ctx.timeline_waits@.subrange(0, i as int + 1).map_values(
                |op: SemaphoreOp|
                    SemaphoreSubmitInfo {
                        semaphore: op.semaphore,
                        value: ctx.frame_index,
                        stage_mask: op.access.stage,
                    },
            ));
        }
        i += 1;
    }
    proof {
        assert(ctx.binary_waits@.subrange(0, ctx.binary_waits@.len() as int) =~= ctx.binary_waits@);
        assert(ctx.timeline_waits@.subrange(0, ctx.timeline_waits@.len() as int)
            =~= ctx.timeline_waits@);
        assert(waits@ =~= waits_spec(*ctx));
    }
    let mut signals: Vec<SemaphoreSubmitInfo> = Vec::new();
    let mut i: usize = 0;
    while i < ctx.binary_signals.len()
        invariant
            i <= ctx.binary_signals.len(),
            signals@ == ctx.binary_signals@.subrange(0, i as int).map_values(
                |op: SemaphoreOp|
                    SemaphoreSubmitInfo {
                        semaphore: op.semaphore,
                        value: 0,
                        stage_mask: op.access.stage,
                    },
            ),
        decreases ctx.binary_signals.len() - i,
    {
        let op = &ctx.binary_signals[i];
        signals.push(
            SemaphoreSubmitInfo { semaphore: op.semaphore, value: 0, stage_mask: op.access.stage },
        );
        proof {
            assert(ctx.binary_signals@.subrange(0, i as int + 1) =~= ctx.binary_signals@.subrange(
                0,
                i as int,
            ).push(ctx.binary_signals@[i as int]));
            assert(signals@ =~= ctx.binary_signals@.subrange(0, i as int + 1).map_values(
                |op: SemaphoreOp|
                    SemaphoreSubmitInfo {
                        semaphore: op.semaphore,
                        value: 0,
                        stage_mask: op.access.stage,
                    },
            ));
        }
        i += 1;
    }
    let mut i: usize = 0;
    while i < ctx.timeline_signals.len()
        invariant
            i <= ctx.timeline_signals.len(),
            signals@ == ctx.binary_signals@.map_values(
                |op: SemaphoreOp|
                    SemaphoreSubmitInfo {
                        semaphore: op.semaphore,
                        value: 0,
                        stage_mask: op.access.stage,
                    },
            ) + ctx.timeline_signals@.subrange(0, i as int).map_values(
                |op: SemaphoreOp|
                    SemaphoreSubmitInfo {
                        semaphore: op.semaphore,
                        value: ctx.frame_index,
                        stage_mask: op.access.stage,
                    },
            ),
        decreases ctx.timeline_signals.len() - i,
    {
        let op = &ctx.timeline_signals[i];
        signals.push(
            SemaphoreSubmitInfo {
                semaphore: op.semaphore,
                value: ctx.frame_index,
                stage_mask: op.access.stage,
            },
        );
        proof {
            assert(ctx.timeline_signals@.subrange(0, i as int + 1)
                =~= ctx.timeline_signals@.subrange(0, i as int).push(
                ctx.timeline_signals@[i as int],
            ));
            assert(signals@ =~= ctx.binary_signals@.map_values(
                |op: SemaphoreOp|
                    SemaphoreSubmitInfo {
                        semaphore: op.semaphore,
                        value: 0,
                        stage_mask: op.access.stage,
                    },
            ) + ctx.timeline_signals@.subrange(0, i as int + 1).map_values(
                |op: SemaphoreOp|
                    SemaphoreSubmitInfo {
                        semaphore: op.semaphore,
                        value: ctx.frame_index,
                        stage_mask: op.access.stage,
                    },
            ));
        }
        i += 1;
    }
    proof {
        assert(ctx.binary_signals@.subrange(0, ctx.binary_signals@.len() as int)
            =~= ctx.binary_signals@);
        assert(ctx.timeline_signals@.subrange(0, ctx.timeline_signals@.len() as int)
            =~= ctx.timeline_signals@);
        assert(signals@ =~= signals_spec(*ctx));
    }
    SubmitDescription { waits, command_buffer, signals }
}

/// Law: on the per-frame timeline scheme every submission signals its own
/// timelines at exactly the frame index and waits on predecessor timelines
/// at exactly the frame index, so for any two contexts of the same frame,
/// every timeline wait value of the consumer is bounded by (indeed equal
/// to) the value the producer signals.
pub proof fn lemma_wait_never_exceeds_signal(
    producer: QueueContext,
    consumer: QueueContext,
    i: int,
    j: int,
)
    requires
        producer.frame_index == consumer.frame_index,
        0 <= i < consumer.timeline_waits@.len(),
        0 <= j < producer.timeline_signals@.len(),
    ensures
        waits_spec(consumer)[consumer.binary_waits@.len() + i].value <= signals_spec(
            producer,
        )[producer.binary_signals@.len() + j].value,
{
    assert(waits_spec(consumer)[consumer.binary_waits@.len() + i].value == consumer.frame_index);
    assert(signals_spec(producer)[producer.binary_signals@.len() + j].value
        == producer.frame_index);
}

} // verus!
