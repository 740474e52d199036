use rhyolite::cluster::NodeInfo;
use rhyolite::error::SchedulerError;
use rhyolite::schedule::{graph_remove_node_with_transitive_dependency, RenderSystemsPass};
use rhyolite::submit::{build_submit_description, BinarySemaphoreWaitOp, QueueContext, SemaphoreOp};
use rhyolite::access::{Access, STAGE_ALL_COMMANDS};

fn info(color: u32, standalone: bool) -> Option<NodeInfo> {
    Some(NodeInfo { color, is_standalone: standalone })
}

#[test]
fn removing_a_node_bridges_predecessors_to_successors() {
    let edges = vec![(0usize, 1usize), (1, 2), (1, 3), (4, 1)];
    let r = graph_remove_node_with_transitive_dependency(&edges, 1);
    assert!(r.contains(&(0, 2)));
    assert!(r.contains(&(0, 3)));
    assert!(r.contains(&(4, 2)));
    assert!(r.contains(&(4, 3)));
    assert!(!r.iter().any(|&(a, b)| a == 1 || b == 1));
    assert_eq!(r.len(), 4);
}

#[test]
fn build_dissolves_non_render_nodes_and_keeps_order() {
    // render -> host sync point -> render: the ordering survives.
    let mut pass = RenderSystemsPass::new();
    let a = pass.add_system(info(0, false));
    let sync = pass.add_system(None);
    let b = pass.add_system(info(1, false));
    pass.add_dependency(a, sync);
    pass.add_dependency(sync, b);
    let plan = pass.build().unwrap();
    assert_eq!(plan.system_ids, vec![a, b]);
    assert_eq!(plan.clustering.clusters.len(), 2);
    let ca = plan.clustering.cluster_of[0];
    let cb = plan.clustering.cluster_of[1];
    assert!(plan.clustering.edges.contains(&(ca, cb)));
    assert!(plan.reduced.contains(&(ca, cb)));
}

#[test]
fn build_wires_prelude_members_and_submission() {
    let mut pass = RenderSystemsPass::new();
    let a = pass.add_system(info(0, false));
    let b = pass.add_system(info(0, false));
    pass.add_dependency(a, b);
    let plan = pass.build().unwrap();
    assert_eq!(plan.clustering.clusters.len(), 1);
    let sync = &plan.sync[0];
    let prelude = sync.prelude.unwrap();
    let submission = sync.submission.unwrap();
    assert_eq!(sync.queue_node, submission);
    for &m in plan.clustering.clusters[0].nodes.iter() {
        let host = plan.system_ids[m];
        assert!(plan.extra_edges.contains(&(prelude, host)));
        assert!(plan.extra_edges.contains(&(host, submission)));
    }
}

#[test]
fn build_assigns_timeline_waits_along_reduced_edges() {
    // compute producer, graphics consumer, transfer reader
    let mut pass = RenderSystemsPass::new();
    let c = pass.add_system(info(0, false));
    let g = pass.add_system(info(1, false));
    let t = pass.add_system(info(2, false));
    pass.add_dependency(c, g);
    pass.add_dependency(g, t);
    pass.add_dependency(c, t);
    let plan = pass.build().unwrap();
    assert_eq!(plan.clustering.clusters.len(), 3);
    assert_eq!(plan.reduced.len(), 2);
    let cg = plan.clustering.cluster_of[0];
    let gg = plan.clustering.cluster_of[1];
    let tg = plan.clustering.cluster_of[2];
    assert_eq!(plan.sync[gg].waits, vec![cg]);
    assert_eq!(plan.sync[tg].waits, vec![gg]);
    assert_eq!(plan.sync[cg].waits, Vec::<usize>::new());
    // Queue nodes are ordered along both reduced edges.
    assert!(plan
        .extra_edges
        .contains(&(plan.sync[cg].queue_node, plan.sync[gg].queue_node)));
    assert!(plan
        .extra_edges
        .contains(&(plan.sync[gg].queue_node, plan.sync[tg].queue_node)));
}

#[test]
fn standalone_cluster_submits_through_its_own_system() {
    // A standalone swapchain-acquire on graphics, followed by a draw: the
    // standalone cluster has no synthetic systems, and the draw cluster
    // inherits a timeline edge from it.
    let mut pass = RenderSystemsPass::new();
    let acquire = pass.add_system(info(0, true));
    let draw = pass.add_system(info(0, false));
    pass.add_dependency(acquire, draw);
    let plan = pass.build().unwrap();
    assert_eq!(plan.clustering.clusters.len(), 2);
    let ac = plan.clustering.cluster_of[0];
    let dc = plan.clustering.cluster_of[1];
    assert!(plan.sync[ac].prelude.is_none());
    assert!(plan.sync[ac].submission.is_none());
    assert_eq!(plan.sync[ac].queue_node, acquire);
    assert!(plan.sync[dc].prelude.is_some());
    assert_eq!(plan.sync[dc].waits, vec![ac]);
}

#[test]
fn cyclic_host_graph_is_rejected() {
    let mut pass = RenderSystemsPass::new();
    let a = pass.add_system(info(0, false));
    let b = pass.add_system(info(1, false));
    pass.add_dependency(a, b);
    pass.add_dependency(b, a);
    match pass.build() {
        Err(e) => assert_eq!(e, SchedulerError::ScheduleCycle),
        Ok(_) => panic!("a cyclic graph must be rejected"),
    }
}

#[test]
fn cycle_through_a_dissolved_node_is_rejected() {
    let mut pass = RenderSystemsPass::new();
    let a = pass.add_system(info(0, false));
    let sync = pass.add_system(None);
    pass.add_dependency(a, sync);
    pass.add_dependency(sync, a);
    match pass.build() {
        Err(e) => assert_eq!(e, SchedulerError::ScheduleCycle),
        Ok(_) => panic!("a cycle through a dissolved node must be rejected"),
    }
}

#[test]
fn empty_pass_builds_empty_plan() {
    let pass = RenderSystemsPass::new();
    let plan = pass.build().unwrap();
    assert_eq!(plan.clustering.clusters.len(), 0);
    assert_eq!(plan.sync.len(), 0);
    assert_eq!(plan.extra_edges.len(), 0);
}

#[test]
fn submission_carries_binary_and_timeline_ops() {
    // A standalone swapchain-acquire cluster binary-waits the acquire
    // semaphore; timeline waits and signals carry the frame index.
    let ctx = QueueContext {
        queue: 0,
        frame_index: 9,
        binary_signals: vec![SemaphoreOp {
            semaphore: 100,
            access: Access { stage: STAGE_ALL_COMMANDS, access: 0 },
        }],
        binary_waits: vec![BinarySemaphoreWaitOp {
            semaphore: 200,
            access: Access { stage: STAGE_ALL_COMMANDS, access: 0 },
        }],
        timeline_signals: vec![SemaphoreOp {
            semaphore: 1,
            access: Access { stage: STAGE_ALL_COMMANDS, access: 0 },
        }],
        timeline_waits: vec![SemaphoreOp {
            semaphore: 2,
            access: Access { stage: STAGE_ALL_COMMANDS, access: 0 },
        }],
    };
    let sub = build_submit_description(&ctx, 77);
    assert_eq!(sub.command_buffer, 77);
    assert_eq!(sub.waits.len(), 2);
    assert_eq!(sub.waits[0].semaphore, 200);
    assert_eq!(sub.waits[0].value, 0);
    assert_eq!(sub.waits[1].semaphore, 2);
    assert_eq!(sub.waits[1].value, 9);
    assert_eq!(sub.signals.len(), 2);
    assert_eq!(sub.signals[0].semaphore, 100);
    assert_eq!(sub.signals[0].value, 0);
    assert_eq!(sub.signals[1].semaphore, 1);
    assert_eq!(sub.signals[1].value, 9);
    assert_eq!(sub.waits[1].stage_mask, STAGE_ALL_COMMANDS);
}

#[test]
fn empty_frame_builds_empty_submission() {
    let ctx = QueueContext {
        queue: 0,
        frame_index: 0,
        binary_signals: vec![],
        binary_waits: vec![],
        timeline_signals: vec![],
        timeline_waits: vec![],
    };
    let sub = build_submit_description(&ctx, 0);
    assert_eq!(sub.waits.len(), 0);
    assert_eq!(sub.signals.len(), 0);
}
