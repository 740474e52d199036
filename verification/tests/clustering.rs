use rhyolite::cluster::{cluster_render_graph, NodeInfo, RenderGraph};
use rhyolite::error::SchedulerError;
use rhyolite::reduce::transitive_reduction;

fn info(color: u32, standalone: bool) -> NodeInfo {
    NodeInfo { color, is_standalone: standalone }
}

fn graph(n: usize, edges: Vec<(usize, usize)>, infos: Vec<NodeInfo>) -> RenderGraph {
    RenderGraph::new(n, edges, infos).expect("well-formed graph")
}

#[test]
fn single_system_single_queue_one_cluster_no_semaphores() {
    let g = graph(1, vec![], vec![info(0, false)]);
    let c = cluster_render_graph(&g).unwrap();
    assert_eq!(c.clusters.len(), 1);
    assert_eq!(c.clusters[0].nodes, vec![0]);
    assert_eq!(c.edges.len(), 0);
    let reduced = transitive_reduction(&c.edges);
    assert_eq!(reduced.len(), 0);
}

#[test]
fn two_standalone_same_colour_two_clusters_in_order() {
    let g = graph(2, vec![], vec![info(0, true), info(0, true)]);
    let c = cluster_render_graph(&g).unwrap();
    assert_eq!(c.clusters.len(), 2);
    assert_eq!(c.clusters[0].nodes.len(), 1);
    assert_eq!(c.clusters[1].nodes.len(), 1);
    assert_eq!(c.clusters[0].info.color, 0);
    assert_eq!(c.clusters[1].info.color, 0);
    // The layer deferral puts them in consecutive layers.
    let mut stages = vec![c.clusters[0].stage, c.clusters[1].stage];
    stages.sort();
    assert_eq!(stages, vec![0, 1]);
}

#[test]
fn two_standalone_same_colour_with_edge_kept_in_cluster_graph() {
    let g = graph(2, vec![(0, 1)], vec![info(0, true), info(0, true)]);
    let c = cluster_render_graph(&g).unwrap();
    assert_eq!(c.clusters.len(), 2);
    let a = c.cluster_of[0];
    let b = c.cluster_of[1];
    assert_ne!(a, b);
    assert!(c.edges.contains(&(a, b)));
}

#[test]
fn chain_of_four_alternating_queues_four_clusters_three_edges() {
    // graphics, transfer, graphics, transfer in a chain
    let g = graph(
        4,
        vec![(0, 1), (1, 2), (2, 3)],
        vec![info(0, false), info(1, false), info(0, false), info(1, false)],
    );
    let c = cluster_render_graph(&g).unwrap();
    assert_eq!(c.clusters.len(), 4);
    assert_eq!(c.edges.len(), 3);
    let reduced = transitive_reduction(&c.edges);
    assert_eq!(reduced.len(), 3);
}

#[test]
fn diamond_two_colours_parallel_clusters_and_join() {
    // a and c share a colour, b is the other colour, d joins.
    let g = graph(
        4,
        vec![(0, 1), (0, 2), (1, 3), (2, 3)],
        vec![info(0, false), info(1, false), info(0, false), info(0, false)],
    );
    let c = cluster_render_graph(&g).unwrap();
    assert_eq!(c.clusters.len(), 3);
    // a and c batch together; b runs in parallel; d joins afterwards.
    assert_eq!(c.cluster_of[0], c.cluster_of[2]);
    assert_ne!(c.cluster_of[0], c.cluster_of[1]);
    assert_ne!(c.cluster_of[3], c.cluster_of[0]);
    assert_ne!(c.cluster_of[3], c.cluster_of[1]);
    // The direct edge from the first cluster to the join is implied.
    let reduced = transitive_reduction(&c.edges);
    assert_eq!(c.edges.len(), 3);
    assert_eq!(reduced.len(), 2);
}

#[test]
fn cross_colour_cycle_risk_defers_to_next_layer() {
    // Two independent cross-colour dependencies that would close a cycle
    // in the per-layer colour graph: the later node moves one layer down.
    let g = graph(
        4,
        vec![(0, 1), (2, 3)],
        vec![info(0, false), info(1, false), info(1, false), info(0, false)],
    );
    let c = cluster_render_graph(&g).unwrap();
    // No two clusters form a cycle: check all edges go stage-upward.
    for &(a, b) in c.edges.iter() {
        assert!(c.clusters[a].stage <= c.clusters[b].stage);
        if c.clusters[a].stage == c.clusters[b].stage {
            assert_ne!(
                (c.clusters[a].info.color, c.clusters[a].info.is_standalone),
                (c.clusters[b].info.color, c.clusters[b].info.is_standalone)
            );
        }
    }
    // Whichever consumer would close the colour cycle lives in a later
    // layer; its producer stays in the first layer.
    let s1 = c.clusters[c.cluster_of[1]].stage;
    let s3 = c.clusters[c.cluster_of[3]].stage;
    assert_eq!(s1.min(s3), 0);
    assert_eq!(s1.max(s3), 1);
}

#[test]
fn empty_frame_no_clusters_no_edges() {
    let g = graph(0, vec![], vec![]);
    let c = cluster_render_graph(&g).unwrap();
    assert_eq!(c.clusters.len(), 0);
    assert_eq!(c.cluster_of.len(), 0);
    assert_eq!(c.edges.len(), 0);
}

#[test]
fn three_serial_systems_one_queue_one_cluster() {
    let g = graph(
        3,
        vec![(0, 1), (1, 2)],
        vec![info(0, false), info(0, false), info(0, false)],
    );
    let c = cluster_render_graph(&g).unwrap();
    assert_eq!(c.clusters.len(), 1);
    assert_eq!(c.edges.len(), 0);
    let mut members = c.clusters[0].nodes.clone();
    members.sort();
    assert_eq!(members, vec![0, 1, 2]);
}

#[test]
fn producer_consumer_reader_three_clusters_two_reduced_edges() {
    // compute -> graphics -> transfer, plus the implied compute -> transfer
    let g = graph(
        3,
        vec![(0, 1), (1, 2), (0, 2)],
        vec![info(0, false), info(1, false), info(2, false)],
    );
    let c = cluster_render_graph(&g).unwrap();
    assert_eq!(c.clusters.len(), 3);
    assert_eq!(c.edges.len(), 3);
    let reduced = transitive_reduction(&c.edges);
    assert_eq!(reduced.len(), 2);
    let ca = c.cluster_of[0];
    let cb = c.cluster_of[1];
    let cc = c.cluster_of[2];
    assert!(reduced.contains(&(ca, cb)));
    assert!(reduced.contains(&(cb, cc)));
    assert!(!reduced.contains(&(ca, cc)));
}

#[test]
fn clustering_twice_yields_identical_clusters() {
    let mk = || {
        graph(
            5,
            vec![(0, 1), (1, 2), (0, 3), (3, 4), (2, 4)],
            vec![info(0, false), info(1, false), info(0, false), info(1, true), info(0, false)],
        )
    };
    let c1 = cluster_render_graph(&mk()).unwrap();
    let c2 = cluster_render_graph(&mk()).unwrap();
    assert_eq!(c1.cluster_of, c2.cluster_of);
    assert_eq!(c1.edges, c2.edges);
    assert_eq!(c1.clusters.len(), c2.clusters.len());
    for (a, b) in c1.clusters.iter().zip(c2.clusters.iter()) {
        assert_eq!(a.nodes, b.nodes);
        assert_eq!(a.stage, b.stage);
        assert_eq!(a.info, b.info);
    }
}

#[test]
fn reduction_is_idempotent() {
    let edges = vec![(0usize, 1usize), (1, 2), (0, 2), (2, 3), (0, 3)];
    let once = transitive_reduction(&edges);
    let twice = transitive_reduction(&once);
    assert_eq!(once, twice);
    assert_eq!(once, vec![(0, 1), (1, 2), (2, 3)]);
}

#[test]
fn cyclic_input_reports_schedule_cycle() {
    let g = graph(
        2,
        vec![(0, 1), (1, 0)],
        vec![info(0, false), info(1, false)],
    );
    match cluster_render_graph(&g) {
        Err(e) => assert_eq!(e, SchedulerError::ScheduleCycle),
        Ok(_) => panic!("a cyclic graph must be rejected"),
    }
}

#[test]
fn cross_colour_edges_survive_clustering() {
    let g = graph(
        4,
        vec![(0, 1), (1, 2), (2, 3)],
        vec![info(0, false), info(1, false), info(1, false), info(0, true)],
    );
    let c = cluster_render_graph(&g).unwrap();
    for &(u, v) in [(0usize, 1usize), (1, 2), (2, 3)].iter() {
        let a = c.cluster_of[u];
        let b = c.cluster_of[v];
        if a != b {
            assert!(c.edges.contains(&(a, b)));
        }
    }
}

#[test]
fn malformed_graphs_are_rejected() {
    assert!(RenderGraph::new(1, vec![(0, 0)], vec![info(0, false)]).is_none());
    assert!(RenderGraph::new(2, vec![(0, 2)], vec![info(0, false), info(0, false)]).is_none());
    assert!(RenderGraph::new(2, vec![(0, 1), (0, 1)], vec![info(0, false), info(0, false)])
        .is_none());
    assert!(RenderGraph::new(1, vec![], vec![]).is_none());
}
