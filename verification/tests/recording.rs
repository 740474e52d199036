use rhyolite::access::{
    track_read, track_write, Access, MemoryBarrier, ResourceState, ACCESS_TRANSFER_READ,
    ACCESS_TRANSFER_WRITE, STAGE_COPY,
};
use rhyolite::buffer::{
    copy_buffer, copy_buffer_regions, dynamic_asset_buffer_plan, dynamic_buffer_plan,
    mesh_buffer_requirements, needs_device_copy, realloc_retry, record_staged_upload,
    upload_buffer_plan, upload_needs_staging, MemoryModel, USAGE_TRANSFER_DST,
    USAGE_TRANSFER_SRC,
};
use rhyolite::error::SchedulerError;
use rhyolite::record::{
    Command, CommandBufferState, CommandPool, FuturePoll, GpuFuture, RecordContext,
};
use rhyolite::timeline::{replica_ready, FramePool, FrameSlot, RetainedPool, Timeline};

fn fresh_resources(n: usize) -> Vec<ResourceState> {
    (0..n).map(|_| ResourceState::new(0, 0)).collect()
}

const COMPUTE_STAGE: u64 = 0x800; // VK_PIPELINE_STAGE_2_COMPUTE_SHADER_BIT
const SHADER_WRITE: u64 = 0x40000; // VK_ACCESS_2_SHADER_STORAGE_WRITE_BIT

#[test]
fn read_after_write_emits_barrier_and_clears_writer() {
    let mut st = ResourceState::new(0, 0);
    let w = Access { stage: COMPUTE_STAGE, access: SHADER_WRITE };
    assert_eq!(track_write(&mut st, w), None);
    assert_eq!(st.last_writer, Some(w));
    let r = Access { stage: STAGE_COPY, access: ACCESS_TRANSFER_READ };
    let b = track_read(&mut st, r).expect("read after write needs a barrier");
    assert_eq!(
        b,
        MemoryBarrier {
            src_stage: COMPUTE_STAGE,
            src_access: SHADER_WRITE,
            dst_stage: STAGE_COPY,
            dst_access: ACCESS_TRANSFER_READ,
        }
    );
    assert_eq!(st.last_writer, None);
    assert_eq!(st.readers.stage, STAGE_COPY);
}

#[test]
fn read_after_read_needs_no_barrier_and_unions_readers() {
    let mut st = ResourceState::new(0, 0);
    let r1 = Access { stage: 0x1, access: 0x10 };
    let r2 = Access { stage: 0x2, access: 0x20 };
    assert_eq!(track_read(&mut st, r1), None);
    assert_eq!(track_read(&mut st, r2), None);
    assert_eq!(st.readers.stage, 0x3);
    assert_eq!(st.readers.access, 0x30);
}

#[test]
fn write_after_read_emits_execution_barrier() {
    let mut st = ResourceState::new(0, 0);
    let r = Access { stage: 0x1, access: 0x10 };
    track_read(&mut st, r);
    let w = Access { stage: COMPUTE_STAGE, access: SHADER_WRITE };
    let b = track_write(&mut st, w).expect("write after read needs a barrier");
    assert_eq!(b.src_stage, 0x1);
    assert_eq!(b.src_access, 0);
    assert_eq!(b.dst_stage, COMPUTE_STAGE);
    assert_eq!(st.last_writer, Some(w));
    assert_eq!(st.readers.stage, 0);
}

#[test]
fn three_serial_writes_cost_two_barriers_one_submission() {
    // Three dependent dispatches between yields: the runtime drains the
    // pending set once per yield, so two barriers separate three writes.
    let mut ctx = RecordContext::new(fresh_resources(1));
    let w = Access { stage: COMPUTE_STAGE, access: SHADER_WRITE };
    ctx.write(0, w);
    ctx.record_work(1);
    ctx.flush_barriers(); // nothing pending: first write had no hazard
    ctx.write(0, w);
    ctx.record_work(2);
    ctx.flush_barriers();
    ctx.write(0, w);
    ctx.record_work(3);
    ctx.flush_barriers();
    let barriers = ctx
        .commands
        .iter()
        .filter(|c| matches!(c, Command::PipelineBarrier { .. }))
        .count();
    assert_eq!(barriers, 2);
    // No emitted barrier is empty.
    for c in ctx.commands.iter() {
        if let Command::PipelineBarrier { memory, images } = c {
            assert!(memory.is_some() || !images.is_empty());
        }
    }
}

#[test]
fn empty_pending_set_emits_no_barrier() {
    let mut ctx = RecordContext::new(fresh_resources(1));
    ctx.flush_barriers();
    assert_eq!(ctx.commands.len(), 0);
}

#[test]
fn copy_future_records_one_copy_and_transfer_write_state() {
    let mut ctx = RecordContext::new(fresh_resources(2));
    let mut fut = copy_buffer(0, 1, 8, 8);
    match fut.poll(&mut ctx) {
        FuturePoll::Ready(((), ())) => {}
        FuturePoll::Pending => panic!("a plain copy resolves in one poll"),
    }
    assert_eq!(ctx.commands.len(), 1);
    match &ctx.commands[0] {
        Command::CopyBuffer { src, dst, regions } => {
            assert_eq!((*src, *dst), (0, 1));
            assert_eq!(regions, &vec![(0, 0, 8)]);
        }
        _ => panic!("expected a copy"),
    }
    assert_eq!(
        ctx.resources[1].last_writer,
        Some(Access { stage: STAGE_COPY, access: ACCESS_TRANSFER_WRITE })
    );
}

#[test]
fn copy_with_empty_regions_is_a_no_op() {
    let mut ctx = RecordContext::new(fresh_resources(2));
    let mut fut = copy_buffer_regions(0, 1, 8, 8, vec![]);
    fut.poll(&mut ctx);
    assert_eq!(ctx.commands.len(), 0);
    assert_eq!(ctx.resources[1].last_writer, None);
}

#[test]
fn upload_then_draw_on_discrete() {
    // create_device_buffer_with_data(8 bytes) on a Discrete device: the
    // destination is device-local with transfer-dst usage, the write goes
    // through a staging buffer, and the staging buffer is retained until
    // the transfer submission's timeline value completes.
    assert!(upload_needs_staging(MemoryModel::Discrete));
    assert!(!upload_needs_staging(MemoryModel::Uma));
    let plan = upload_buffer_plan(MemoryModel::Discrete, 0);
    assert_eq!(plan.usage & USAGE_TRANSFER_DST, USAGE_TRANSFER_DST);
    assert!(plan.prefer_device);
    assert!(!plan.mapped);

    let mut ctx = RecordContext::new(fresh_resources(2));
    let mut retained: RetainedPool<usize> = RetainedPool::new();
    let mut transfer_timeline = Timeline::new(1);
    let signal = transfer_timeline.advance();
    assert_eq!(signal, 1);
    record_staged_upload(&mut ctx, 0, 1, 8, &mut retained, signal);
    assert_eq!(
        ctx.resources[1].last_writer,
        Some(Access { stage: STAGE_COPY, access: ACCESS_TRANSFER_WRITE })
    );
    // Not dropped while the timeline has not completed the transfer.
    let freed = retained.reclaim(transfer_timeline.completed);
    assert_eq!(freed.len(), 0);
    assert_eq!(retained.entries.len(), 1);
    // Once the graphics consumer's wait (transfer timeline value 1) has
    // completed, the staging buffer is released.
    transfer_timeline.complete_to(1);
    let freed = retained.reclaim(transfer_timeline.completed);
    assert_eq!(freed.len(), 1);
    assert_eq!(freed[0].value, 0);
    assert_eq!(retained.entries.len(), 0);
}

#[test]
fn pool_generation_guard_detects_mismatch() {
    let mut pool = CommandPool::new(7);
    let mut cb = pool.begin(fresh_resources(1));
    assert_eq!(cb.state, CommandBufferState::Recording);
    pool.reset();
    let fut = copy_buffer(0, 0, 4, 4);
    let r = pool.record(&mut cb, fut, 0);
    assert!(matches!(r, Err(SchedulerError::PoolGenerationMismatch)));
}

#[test]
fn record_drives_future_and_reports_wait_value() {
    let mut pool = CommandPool::new(7);
    let mut cb = pool.begin(fresh_resources(2));
    let fut = copy_buffer(0, 1, 16, 16);
    let status = pool.record(&mut cb, fut, 42).unwrap();
    assert_eq!(status.wait_value, cb.signal_value);
    assert_eq!(status.timeline, 42);
    assert_eq!(cb.ctx.commands.len(), 1);
}

#[test]
fn frame_pool_recycles_after_n_in_flight() {
    // With two frames in flight, frame k reuses the slot stamped at frame
    // k - 2, so the replica is free exactly when value k - 2 completed.
    let pool = FramePool {
        n_in_flight: 2,
        slots: vec![
            FrameSlot { last_use: 3, value: 0u32 },
            FrameSlot { last_use: 4, value: 1u32 },
        ],
    };
    // Frame 5 uses slot 1 (last use 4): free only once 4 has completed.
    assert!(pool.needs_host_wait(5, 3));
    assert!(!pool.needs_host_wait(5, 4));
    assert!(replica_ready(3, 3));
    assert!(!replica_ready(4, 3));
}

#[test]
fn dynamic_and_asset_plans_follow_memory_model() {
    let d = dynamic_buffer_plan(MemoryModel::Discrete, 0x10);
    assert_eq!(d.usage, 0x10 | USAGE_TRANSFER_SRC);
    assert!(!d.prefer_device);
    let d2 = dynamic_buffer_plan(MemoryModel::ResizableBar, 0x10);
    assert_eq!(d2.usage, 0x10);
    assert!(d2.prefer_device && d2.mapped);
    // Asset buffers are staged on plain BAR as well.
    let a = dynamic_asset_buffer_plan(MemoryModel::Bar, 0);
    assert_eq!(a.usage, USAGE_TRANSFER_DST);
    assert!(!a.mapped);
    let a2 = dynamic_asset_buffer_plan(MemoryModel::Uma, 0);
    assert!(a2.mapped);
}

#[test]
fn host_wait_times_out_until_completed() {
    let mut t = Timeline::new(0);
    t.advance();
    assert_eq!(t.host_wait_outcome(1), Err(SchedulerError::TimelineTimeout));
    t.complete_to(1);
    assert_eq!(t.host_wait_outcome(1), Ok(()));
}

#[test]
fn transient_allocation_retries_once_with_doubled_capacity() {
    assert_eq!(realloc_retry(256, 0), Ok(512));
    assert_eq!(realloc_retry(512, 1), Err(SchedulerError::OutOfHostMemory));
}

#[test]
fn mesh_buffers_grow_to_the_packed_totals() {
    let counts = vec![(4u32, 6u32), (8, 12), (0, 0), (3, 3)];
    let (vertices, indices) = mesh_buffer_requirements(&counts);
    assert_eq!(vertices, 15);
    assert_eq!(indices, 21);
    assert!(needs_device_copy(MemoryModel::Bar));
    assert!(needs_device_copy(MemoryModel::Discrete));
    assert!(!needs_device_copy(MemoryModel::Uma));
    assert!(!needs_device_copy(MemoryModel::ResizableBar));
}
