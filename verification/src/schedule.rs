//! Schedule building: from the host's flattened dependency graph to a
//! cluster plan with prelude/submission systems and timeline waits.
//!
//! Non-render nodes are dissolved while their ordering constraints are kept
//! (predecessors are wired to successors), the render subgraph is
//! clustered, the cluster DAG is transitively reduced, and every
//! non-standalone cluster is fenced by a prelude system (opens the shared
//! command recorder) and a submission system (closes it and submits).

use vstd::prelude::*;
use crate::cluster::{
    cluster_render_graph, cluster_wf, valid_clustering, Clustering, NodeInfo, RenderGraph,
};
use crate::error::SchedulerError;
use crate::graph::{acyclic, has_cycle, is_path, lemma_path_mono};
use crate::reduce::{reduced_edges, transitive_reduction};

verus! {

/// A subset of an acyclic edge set is acyclic.
pub proof fn lemma_acyclic_subset<T>(small: Set<(T, T)>, big: Set<(T, T)>)
    requires
        acyclic(big),
        small.subset_of(big),
    ensures
        acyclic(small),
{
    if has_cycle(small) {
        let p = choose|p: Seq<T>| is_path(small, p) && p.len() >= 2 && p.first() == p.last();
        lemma_path_mono(small, big, p);
    }
}


/// Deadlock freedom: the reduced submission-ordering DAG is acyclic, so
/// every timeline wait is on a submission that cannot transitively wait
/// back.
pub proof fn lemma_reduced_ordering_acyclic(g: RenderGraph, c: Clustering)
    requires
        valid_clustering(g, c),
    ensures
        acyclic(reduced_edges(c.edges@.to_set())),
{
    crate::cluster::lemma_clustering_acyclic(g, c);
    lemma_acyclic_subset(reduced_edges(c.edges@.to_set()), c.edges@.to_set());
}

/// The edges left after dissolving `node`: all edges not touching `node`,
/// plus one edge from each of its predecessors to each of its successors.
pub open spec fn removal_edges(e: Set<(usize, usize)>, node: usize) -> Set<(usize, usize)> {
    Set::new(
        |p: (usize, usize)|
            (e.contains(p) && p.0 != node && p.1 != node) || (p.0 != node && p.1 != node
                && e.contains((p.0, node)) && e.contains((node, p.1))),
    )
}

/// Dissolves one node, wiring every predecessor to every successor so that
/// indirect ordering constraints survive.  The result carries no duplicate
/// edges.
pub fn graph_remove_node_with_transitive_dependency(
    edges: &Vec<(usize, usize)>,
    node: usize,
) -> (r: Vec<(usize, usize)>)
    ensures
        r@.to_set() == removal_edges(edges@.to_set(), node),
        forall|i1: int, i2: int| 0 <= i1 < i2 < r.len() ==> r[i1] != r[i2],
{
    let ghost es = edges@.to_set();
    let mut r: Vec<(usize, usize)> = Vec::new();
    let mut k: usize = 0;
    while k < edges.len()
        invariant
            es == edges@.to_set(),
            k <= edges.len(),
            forall|i1: int, i2: int| 0 <= i1 < i2 < r.len() ==> r[i1] != r[i2],
            forall|i: int|
                0 <= i < r.len() ==> removal_edges(es, node).contains(#[trigger] r[i]),
            forall|i: int|
                0 <= i < k && (#[trigger] edges[i]).0 != node && edges[i].1 != node
                    ==> r@.contains(edges[i]),
        decreases edges.len() - k,
    {
        let (a, b) = edges[k];
        proof {
            assert(edges@[k as int] == (a, b));
            assert(edges@.contains(edges@[k as int]));
        }
        let ghost r_before = r@;
        if a != node && b != node {
            let mut present = false;
            let mut i: usize = 0;
            while i < r.len()
                invariant
                    i <= r.len(),
                    !present ==> forall|i2: int| 0 <= i2 < i ==> #[trigger] r[i2] != (a, b),
                    present ==> r@.contains((a, b)),
                decreases r.len() - i,
            {
                if r[i].0 == a && r[i].1 == b {
                    proof {
                        assert(r@[i as int] == (a, b));
                    }
                    present = true;
                }
                i += 1;
            }
            if !present {
                r.push((a, b));
            }
            proof {
                if !present {
                    assert(r@[r@.len() - 1] == (a, b));
                }
                assert forall|i: int|
                    0 <= i < k + 1 && (#[trigger] edges[i]).0 != node && edges[i].1 != node
                        implies r@.contains(edges[i]) by {
                    if i < k {
                        let i2 = choose|i2: int|
                            0 <= i2 < r_before.len() && r_before[i2] == edges[i];
                        assert(r@[i2] == edges[i]);
                    }
                }
            }
        }
        k += 1;
    }
    // Bridge predecessors to successors.
    let ghost r_mid = r@;
    let mut k: usize = 0;
    while k < edges.len()
        invariant
            es == edges@.to_set(),
            k <= edges.len(),
            forall|i1: int, i2: int| 0 <= i1 < i2 < r.len() ==> r[i1] != r[i2],
            forall|i: int|
                0 <= i < r.len() ==> removal_edges(es, node).contains(#[trigger] r[i]),
            forall|i: int| 0 <= i < r_mid.len() ==> r@.contains(#[trigger] r_mid[i]),
            forall|i: int|
                0 <= i < edges.len() && (#[trigger] edges[i]).0 != node && edges[i].1 != node
                    ==> r_mid.contains(edges[i]),
            forall|i: int, j: int|
                0 <= i < k && 0 <= j < edges.len() && (#[trigger] edges[i]).1 == node
                    && (#[trigger] edges[j]).0 == node && edges[i].0 != node && edges[j].1
                    != node ==> r@.contains((edges[i].0, edges[j].1)),
        decreases edges.len() - k,
    {
        let (a, mid) = edges[k];
        proof {
            assert(edges@[k as int] == (a, mid));
            assert(edges@.contains(edges@[k as int]));
        }
        if mid == node && a != node {
            let mut j: usize = 0;
            while j < edges.len()
                invariant
                    es == edges@.to_set(),
                    j <= edges.len(),
                    edges@.contains((a, node)),
                    a != node,
                    forall|i1: int, i2: int| 0 <= i1 < i2 < r.len() ==> r[i1] != r[i2],
                    forall|i: int|
                        0 <= i < r.len() ==> removal_edges(es, node).contains(#[trigger] r[i]),
                    forall|i: int| 0 <= i < r_mid.len() ==> r@.contains(#[trigger] r_mid[i]),
                    forall|i: int, j2: int|
                        0 <= i < k && 0 <= j2 < edges.len() && (#[trigger] edges[i]).1 == node
                            && (#[trigger] edges[j2]).0 == node && edges[i].0 != node
                            && edges[j2].1 != node ==> r@.contains((edges[i].0, edges[j2].1)),
                    forall|j2: int|
                        0 <= j2 < j && (#[trigger] edges[j2]).0 == node && edges[j2].1 != node
                            ==> r@.contains((a, edges[j2].1)),
                decreases edges.len() - j,
            {
                let (m2, b) = edges[j];
                proof {
                    assert(edges@[j as int] == (m2, b));
                    assert(edges@.contains(edges@[j as int]));
                }
                let ghost r_in = r@;
                if m2 == node && b != node {
                    let mut present = false;
                    let mut i: usize = 0;
                    while i < r.len()
                        invariant
                            i <= r.len(),
                            !present ==> forall|i2: int|
                                0 <= i2 < i ==> #[trigger] r[i2] != (a, b),
                            present ==> r@.contains((a, b)),
                        decreases r.len() - i,
                    {
                        if r[i].0 == a && r[i].1 == b {
                            proof {
                                assert(r@[i as int] == (a, b));
                            }
                            present = true;
                        }
                        i += 1;
                    }
                    if !present {
                        r.push((a, b));
                    }
                    proof {
                        if !present {
                            assert(r@[r@.len() - 1] == (a, b));
                        }
                        assert forall|i: int|
                            0 <= i < r_in.len() implies r@.contains(#[trigger] r_in[i]) by {
                            assert(r@[i] == r_in[i]);
                        }
                    }
                }
                proof {
                    assert forall|i: int| 0 <= i < r_mid.len() implies r@.contains(
                        #[trigger] r_mid[i],
                    ) by {
                        let i2 = choose|i2: int| 0 <= i2 < r_in.len() && r_in[i2] == r_mid[i];
                        assert(r@[i2] == r_mid[i]);
                    }
                    assert forall|i: int, j2: int|
                        0 <= i < k && 0 <= j2 < edges.len() && (#[trigger] edges[i]).1 == node
                            && (#[trigger] edges[j2]).0 == node && edges[i].0 != node
                            && edges[j2].1 != node implies r@.contains(
                        (edges[i].0, edges[j2].1),
                    ) by {
                        let i2 = choose|i2: int|
                            0 <= i2 < r_in.len() && r_in[i2] == (edges[i].0, edges[j2].1);
                        assert(r@[i2] == (edges[i].0, edges[j2].1));
                    }
                    assert forall|j2: int|
                        0 <= j2 < j + 1 && (#[trigger] edges[j2]).0 == node && edges[j2].1
                            != node implies r@.contains((a, edges[j2].1)) by {
                        if j2 < j {
                            let i2 = choose|i2: int|
                                0 <= i2 < r_in.len() && r_in[i2] == (a, edges[j2].1);
                            assert(r@[i2] == (a, edges[j2].1));
                        }
                    }
                }
                j += 1;
            }
        }
        k += 1;
    }
    proof {
        assert forall|p: (usize, usize)| removal_edges(es, node).contains(p) implies r@.to_set()
            .contains(p) by {
            if es.contains(p) && p.0 != node && p.1 != node {
                let i = choose|i: int| 0 <= i < edges@.len() && edges@[i] == p;
                assert(r_mid.contains(edges@[i]));
                let i2 = choose|i2: int| 0 <= i2 < r_mid.len() && r_mid[i2] == p;
                assert(r@.contains(r_mid[i2]));
            } else {
                let i = choose|i: int| 0 <= i < edges@.len() && edges@[i] == (p.0, node);
                let j = choose|j: int| 0 <= j < edges@.len() && edges@[j] == (node, p.1);
                assert(r@.contains((edges@[i].0, edges@[j].1)));
            }
        }
        assert forall|p: (usize, usize)| r@.to_set().contains(p) implies removal_edges(
            es,
            node,
        ).contains(p) by {
            let i = choose|i: int| 0 <= i < r@.len() && r@[i] == p;
        }
        assert(r@.to_set() =~= removal_edges(es, node));
    }
    r
}


/// The edge set after dissolving every non-render node below `upto`.
pub open spec fn dissolved(
    e: Set<(usize, usize)>,
    configs: Seq<Option<NodeInfo>>,
    upto: int,
) -> Set<(usize, usize)>
    decreases upto,
{
    if upto <= 0 {
        e
    } else {
        let prev = dissolved(e, configs, upto - 1);
        if configs[upto - 1] is None {
            removal_edges(prev, (upto - 1) as usize)
        } else {
            prev
        }
    }
}

/// Per-cluster synchronisation plan.
pub struct ClusterSync {
    /// The host node that performs the queue submission: the synthetic
    /// submission system, or the standalone system itself.
    pub queue_node: usize,
    /// Synthetic prelude system, for non-standalone clusters.
    pub prelude: Option<usize>,
    /// Synthetic submission system, for non-standalone clusters.
    pub submission: Option<usize>,
    /// Clusters whose timelines this cluster waits on (at an
    /// all-commands stage), one per reduced incoming edge.
    pub waits: Vec<usize>,
}

/// Everything the host needs to run the schedule.
pub struct SchedulePlan {
    /// The compacted render subgraph that was clustered.
    pub graph: RenderGraph,
    /// Compact node index to host node id.
    pub system_ids: Vec<usize>,
    /// The cluster DAG.
    pub clustering: Clustering,
    /// The transitive reduction of the cluster DAG: the authoritative
    /// submission ordering.
    pub reduced: Vec<(usize, usize)>,
    /// Per-cluster synchronisation.
    pub sync: Vec<ClusterSync>,
    /// New host dependency edges: prelude before members, members before
    /// submission, and queue nodes ordered along reduced cluster edges.
    pub extra_edges: Vec<(usize, usize)>,
}

/// Synthetic host node id of a cluster's prelude system.
pub open spec fn prelude_id(n_host: int, j: int) -> int {
    n_host + 2 * j
}

/// Synthetic host node id of a cluster's submission system.
pub open spec fn submission_id(n_host: int, j: int) -> int {
    n_host + 2 * j + 1
}

/// The schedule-build pass: systems are registered with their scheduling
/// identity (`None` for non-render systems), dependencies are added, and
/// `build` produces the cluster plan.
pub struct RenderSystemsPass {
    pub configs: Vec<Option<NodeInfo>>,
    pub edges: Vec<(usize, usize)>,
}

impl RenderSystemsPass {
    /// Host graph well-formedness: edges in range, no self-edges, no
    /// duplicates, and few enough systems that synthetic ids fit.
    pub open spec fn wf(self) -> bool {
        &&& self.configs.len() < 0x10000000
        &&& forall|k: int|
            0 <= k < self.edges.len() ==> ((#[trigger] self.edges[k]).0 < self.configs.len()
                && self.edges[k].1 < self.configs.len() && self.edges[k].0 != self.edges[k].1)
        &&& forall|k1: int, k2: int|
            0 <= k1 < k2 < self.edges.len() ==> #[trigger] self.edges[k1]
                != #[trigger] self.edges[k2]
    }

    pub fn new() -> (r: Self)
        ensures
            r.configs.len() == 0,
            r.edges.len() == 0,
    {
        RenderSystemsPass { configs: Vec::new(), edges: Vec::new() }
    }

    /// Registers a system; `config` carries its queue colour and
    /// standalone flag, or `None` for a system outside the render graph.
    pub fn add_system(&mut self, config: Option<NodeInfo>) -> (id: usize)
        requires
            old(self).configs.len() < usize::MAX,
        ensures
            final(self).configs@ == old(self).configs@.push(config),
            final(self).edges == old(self).edges,
            id == old(self).configs.len(),
    {
        let id = self.configs.len();
        self.configs.push(config);
        id
    }

    /// Adds an ordering constraint: `from` runs before `to`.
    pub fn add_dependency(&mut self, from: usize, to: usize)
        ensures
            final(self).edges@ == old(self).edges@.push((from, to)),
            final(self).configs == old(self).configs,
    {
        self.edges.push((from, to));
    }
}


/// What a successful schedule build guarantees.
pub open spec fn build_plan_ok(pass: RenderSystemsPass, plan: SchedulePlan) -> bool {
    let n_host = pass.configs.len() as int;
    let dis = dissolved(pass.edges@.to_set(), pass.configs@, n_host);
    &&& plan.graph.wf()
    &&& valid_clustering(plan.graph, plan.clustering)
    &&& plan.reduced@.to_set() == reduced_edges(plan.clustering.edges@.to_set())
    // The compact nodes enumerate exactly the render systems, in order.
    &&& plan.system_ids.len() == plan.graph.n
    &&& plan.graph.infos.len() == plan.graph.n
    &&& forall|i1: int, i2: int|
        0 <= i1 < i2 < plan.system_ids.len() ==> #[trigger] plan.system_ids[i1]
            < #[trigger] plan.system_ids[i2]
    &&& forall|i: int|
        0 <= i < plan.system_ids.len() ==> ((#[trigger] plan.system_ids[i] as int) < n_host
            && pass.configs[plan.system_ids[i] as int] is Some)
    &&& forall|v: int|
        0 <= v < n_host && pass.configs[v] is Some ==> plan.system_ids@.contains(v as usize)
    // Identities survive compaction: the standalone flag is kept, and two
    // systems share a compact colour exactly when they shared a host colour.
    &&& forall|i: int|
        0 <= i < plan.graph.n ==> (#[trigger] plan.graph.infos[i]).is_standalone
            == pass.configs[plan.system_ids[i] as int]->0.is_standalone
    &&& forall|i1: int, i2: int|
        0 <= i1 < plan.graph.n && 0 <= i2 < plan.graph.n ==> (((#[trigger] plan.graph.infos[i1]).color
            == (#[trigger] plan.graph.infos[i2]).color) <==> (pass.configs[plan.system_ids[i1] as int]->0.color
            == pass.configs[plan.system_ids[i2] as int]->0.color))
    // The compact edges are exactly the dissolved host edges.
    &&& forall|i: int, j: int|
        0 <= i < plan.graph.n && 0 <= j < plan.graph.n ==> (plan.graph.edge_set().contains(
            ((i as usize, j as usize)),
        ) <==> dis.contains((plan.system_ids[i], plan.system_ids[j])))
    // Per-cluster synchronisation.
    &&& plan.sync.len() == plan.clustering.clusters.len()
    &&& forall|j: int| 0 <= j < plan.sync.len() ==> #[trigger] sync_ok(pass, plan, j)
}

/// The synchronisation entry of cluster `j`.
pub open spec fn sync_ok(pass: RenderSystemsPass, plan: SchedulePlan, j: int) -> bool {
    let n_host = pass.configs.len() as int;
    let sy = plan.sync[j];
    let cl = plan.clustering.clusters[j];
    // Timeline waits mirror the reduced incoming edges exactly.
    &&& forall|a: usize| sy.waits@.contains(a) <==> plan.reduced@.contains((a, j as usize))
    // Standalone clusters submit through their own single system; others
    // through a synthetic submission system, after a synthetic prelude.
    &&& (cl.info.is_standalone ==> sy.queue_node == plan.system_ids[cl.nodes[0] as int]
        && sy.prelude is None && sy.submission is None)
    &&& (!cl.info.is_standalone ==> (sy.queue_node as int) == submission_id(n_host, j)
        && sy.prelude == Some((prelude_id(n_host, j)) as usize) && sy.submission == Some(
        (submission_id(n_host, j)) as usize,
    ) && (forall|i: int|
        0 <= i < cl.nodes.len() ==> plan.extra_edges@.contains(
            ((prelude_id(n_host, j) as usize, plan.system_ids[#[trigger] cl.nodes[i] as int])),
        ) && plan.extra_edges@.contains(
            ((plan.system_ids[cl.nodes[i] as int], submission_id(n_host, j) as usize)),
        )))
    // Each reduced edge out of `j` orders the two queue nodes.
    &&& forall|i: int|
        0 <= i < plan.reduced.len() && (#[trigger] plan.reduced[i]).0 == j as usize
            ==> plan.extra_edges@.contains(
            (plan.sync[j].queue_node, plan.sync[plan.reduced[i].1 as int].queue_node),
        )
}


impl RenderSystemsPass {
    /// Builds the schedule: dissolves non-render nodes, clusters the render
    /// subgraph, reduces the cluster DAG, and wires prelude/submission
    /// systems and timeline waits.  Fails with `ScheduleCycle` exactly
    /// when the dissolved dependency graph is cyclic.
    pub fn build(&self) -> (r: Result<SchedulePlan, SchedulerError>)
        requires
            self.wf(),
        ensures
            r matches Ok(plan) ==> build_plan_ok(*self, plan),
            r is Ok <==> !has_cycle(
                dissolved(self.edges@.to_set(), self.configs@, self.configs.len() as int),
            ),
            r is Err ==> r == Result::<SchedulePlan, SchedulerError>::Err(
                SchedulerError::ScheduleCycle,
            ),
    {
        let n_host = self.configs.len();
        let ghost dis_full = dissolved(self.edges@.to_set(), self.configs@, n_host as int);
        // Dissolve every non-render node, keeping transitive ordering.
        let mut cur: Vec<(usize, usize)> = Vec::new();
        let mut k0: usize = 0;
        while k0 < self.edges.len()
            invariant
                k0 <= self.edges.len(),
                cur@ == self.edges@.subrange(0, k0 as int),
            decreases self.edges.len() - k0,
        {
            cur.push(self.edges[k0]);
            proof {
                assert(cur@ =~= self.edges@.subrange(0, k0 as int + 1));
            }
            k0 += 1;
        }
        proof {
            assert(cur@ =~= self.edges@);
        }
        let mut v: usize = 0;
        while v < n_host
            invariant
                self.wf(),
                n_host == self.configs.len(),
                v <= n_host,
                cur@.to_set() == dissolved(self.edges@.to_set(), self.configs@, v as int),
                forall|i1: int, i2: int| 0 <= i1 < i2 < cur.len() ==> cur[i1] != cur[i2],
                forall|i: int|
                    0 <= i < cur.len() ==> ((#[trigger] cur[i]).0 < n_host && cur[i].1 < n_host),
                forall|i: int|
                    0 <= i < cur.len() ==> (((#[trigger] cur[i]).0 as int) < v
                        ==> self.configs[cur[i].0 as int] is Some) && (((cur[i].1 as int) < v)
                        ==> self.configs[cur[i].1 as int] is Some),
            decreases n_host - v,
        {
            let ghost cur_pre = cur@;
            if self.configs[v].is_none() {
                cur = graph_remove_node_with_transitive_dependency(&cur, v);
                proof {
                    assert forall|i: int|
                        0 <= i < cur.len() implies ((#[trigger] cur[i]).0 < n_host && cur[i].1
                        < n_host && (((cur[i].0 as int) < v + 1)
                        ==> self.configs[cur[i].0 as int] is Some) && (((cur[i].1 as int) < v + 1)
                        ==> self.configs[cur[i].1 as int] is Some)) by {
                        assert(removal_edges(cur_pre.to_set(), v).contains(cur[i]));
                        assert(cur[i].0 != v && cur[i].1 != v);
                        if cur_pre.to_set().contains(cur[i]) {
                            let i2 = choose|i2: int|
                                0 <= i2 < cur_pre.len() && cur_pre[i2] == cur[i];
                        } else {
                            let a = cur[i].0;
                            let b = cur[i].1;
                            assert(cur_pre.to_set().contains((a, v)));
                            assert(cur_pre.to_set().contains((v, b)));
                            let ia = choose|ia: int|
                                0 <= ia < cur_pre.len() && cur_pre[ia] == (a, v);
                            let ib = choose|ib: int|
                                0 <= ib < cur_pre.len() && cur_pre[ib] == (v, b);
                        }
                    }
                }
            } else {
                proof {
                    assert forall|i: int|
                        0 <= i < cur.len() implies ((((#[trigger] cur[i]).0 as int) < v + 1
                        ==> self.configs[cur[i].0 as int] is Some) && (((cur[i].1 as int) < v + 1)
                        ==> self.configs[cur[i].1 as int] is Some)) by {
                        if cur[i].0 == v || cur[i].1 == v {
                        }
                    }
                }
            }
            v += 1;
        }
        // Compact the render systems and recolour densely.
        let mut ids: Vec<usize> = Vec::new();
        let mut comp: Vec<usize> = Vec::new();
        let mut colors: Vec<u32> = Vec::new();
        let mut infos: Vec<NodeInfo> = Vec::new();
        let mut v: usize = 0;
        while v < n_host
            invariant
                self.wf(),
                n_host == self.configs.len(),
                v <= n_host,
                comp.len() == v,
                ids.len() == infos.len(),
                ids.len() <= v,
                colors.len() <= ids.len(),
                forall|i1: int, i2: int|
                    0 <= i1 < i2 < ids.len() ==> #[trigger] ids[i1] < #[trigger] ids[i2],
                forall|i: int|
                    0 <= i < ids.len() ==> ((#[trigger] ids[i] as int) < v
                        && self.configs[ids[i] as int] is Some && (comp[ids[i] as int] as int)
                        == i),
                forall|w: int|
                    0 <= w < v && self.configs[w] is Some ==> ids@.contains(w as usize),
                forall|i: int|
                    0 <= i < infos.len() ==> ((#[trigger] infos[i]).is_standalone
                        == self.configs[ids[i] as int]->0.is_standalone && (infos[i].color as int)
                        < colors.len() && colors[infos[i].color as int]
                        == self.configs[ids[i] as int]->0.color),
                forall|c1: int, c2: int|
                    0 <= c1 < c2 < colors.len() ==> #[trigger] colors[c1] != #[trigger] colors[c2],
            decreases n_host - v,
        {
            if let Some(cfg) = self.configs[v] {
                let mut cidx: usize = 0;
                let mut found = false;
                let mut j: usize = 0;
                while j < colors.len()
                    invariant
                        j <= colors.len(),
                        !found ==> forall|i: int| 0 <= i < j ==> #[trigger] colors[i] != cfg.color,
                        found ==> (cidx as int) < colors.len() && colors[cidx as int] == cfg.color,
                    decreases colors.len() - j,
                {
                    if colors[j] == cfg.color {
                        found = true;
                        cidx = j;
                    }
                    j += 1;
                }
                if !found {
                    cidx = colors.len();
                    colors.push(cfg.color);
                }
                let ghost ids_pre = ids@;
                comp.push(ids.len());
                ids.push(v);
                infos.push(NodeInfo { color: cidx as u32, is_standalone: cfg.is_standalone });
                proof {
                    assert(ids@[ids@.len() - 1] == v);
                    assert forall|w: int|
                        0 <= w < v + 1 && self.configs[w] is Some implies ids@.contains(
                        w as usize,
                    ) by {
                        if w < v {
                            let i = choose|i: int|
                                0 <= i < ids_pre.len() && ids_pre[i] == w as usize;
                            assert(ids@[i] == w as usize);
                        }
                    }
                }
            } else {
                comp.push(usize::MAX);
            }
            v += 1;
        }
        let m = ids.len();
        // Map the dissolved edges onto compact indices; a self-edge would
        // witness a host cycle through dissolved nodes.
        let mut cedges: Vec<(usize, usize)> = Vec::new();
        let mut k: usize = 0;
        while k < cur.len()
            invariant
                self.wf(),
                n_host == self.configs.len(),
                dis_full == dissolved(self.edges@.to_set(), self.configs@, n_host as int),
                cur@.to_set() == dis_full,
                comp.len() == n_host,
                ids.len() == m,
                m <= n_host,
                forall|i1: int, i2: int|
                    0 <= i1 < i2 < ids.len() ==> #[trigger] ids[i1] < #[trigger] ids[i2],
                forall|i: int|
                    0 <= i < ids.len() ==> ((#[trigger] ids[i] as int) < n_host
                        && self.configs[ids[i] as int] is Some && (comp[ids[i] as int] as int)
                        == i),
                forall|w: int|
                    0 <= w < n_host && self.configs[w] is Some ==> ids@.contains(w as usize),
                forall|i: int|
                    0 <= i < cur.len() ==> ((#[trigger] cur[i]).0 < n_host && cur[i].1 < n_host
                        && self.configs[cur[i].0 as int] is Some
                        && self.configs[cur[i].1 as int] is Some),
                forall|i1: int, i2: int| 0 <= i1 < i2 < cur.len() ==> cur[i1] != cur[i2],
                k <= cur.len(),
                cedges.len() == k,
                forall|i: int|
                    0 <= i < k ==> #[trigger] cedges[i] == (
                        comp[cur[i].0 as int],
                        comp[cur[i].1 as int],
                    ),
                forall|i: int|
                    0 <= i < k ==> ((#[trigger] cedges[i]).0 < m && cedges[i].1 < m && cedges[i].0
                        != cedges[i].1 && ids[cedges[i].0 as int] == cur[i].0
                        && ids[cedges[i].1 as int] == cur[i].1),
            decreases cur.len() - k,
        {
            let (a, b) = cur[k];
            proof {
                assert(cur@[k as int] == (a, b));
                assert(ids@.contains(a) && ids@.contains(b));
                let ia = choose|ia: int| 0 <= ia < ids@.len() && ids@[ia] == a;
                assert((comp[a as int] as int) == ia);
                let ib = choose|ib: int| 0 <= ib < ids@.len() && ids@[ib] == b;
                assert((comp[b as int] as int) == ib);
            }
            let ca = comp[a];
            let cb = comp[b];
            if ca == cb {
                proof {
                    // A self-edge after dissolution is a two-step cycle.
                    assert(a == b) by {
                        assert(ids[ca as int] == a && ids[cb as int] == b);
                    }
                    assert(dis_full.contains((a, a))) by {
                        assert(cur@.to_set().contains(cur@[k as int]));
                    }
                    let p = seq![a, a];
                    assert(p.drop_first() =~= seq![a]);
                    assert(is_path(dis_full, seq![a]));
                    assert(p[0] == a && p[1] == a);
                    assert(is_path(dis_full, p) && p.len() >= 2 && p.first() == p.last());
                    assert(has_cycle(dis_full));
                }
                return Err(SchedulerError::ScheduleCycle);
            }
            cedges.push((ca, cb));
            k += 1;
        }
        // The compact graph is well-formed by construction.
        proof {
            assert forall|i1: int, i2: int|
                0 <= i1 < i2 < cedges.len() implies #[trigger] cedges[i1]
                != #[trigger] cedges[i2] by {
                assert(cur@[i1] != cur@[i2]);
                assert(ids[cedges[i1].0 as int] == cur[i1].0 && ids[cedges[i1].1 as int]
                    == cur[i1].1);
                assert(ids[cedges[i2].0 as int] == cur[i2].0 && ids[cedges[i2].1 as int]
                    == cur[i2].1);
            }
            assert forall|i: int| 0 <= i < infos.len() implies (#[trigger] infos[i].color as int)
                < m by {
            }
        }
        let rg = match RenderGraph::new(m, cedges, infos) {
            Some(rg) => rg,
            None => {
                proof {
                    assert(false);
                }
                return Err(SchedulerError::ScheduleCycle);
            },
        };
        let clustering = match cluster_render_graph(&rg) {
            Ok(c) => c,
            Err(e) => {
                proof {
                    // A cycle among compact nodes maps pointwise onto the
                    // dissolved host edges.
                    let p = choose|p: Seq<usize>|
                        is_path(rg.edge_set(), p) && p.len() >= 2 && p.first() == p.last();
                    let q = p.map_values(|x: usize| ids@[x as int]);
                    assert forall|i: int| 0 <= i < q.len() - 1 implies dis_full.contains(
                        (#[trigger] q[i], q[i + 1]),
                    ) by {
                        crate::graph::lemma_path_edges(rg.edge_set(), p, i);
                        assert(rg.edges@.contains((p[i], p[i + 1])));
                        let e = choose|e: int|
                            0 <= e < rg.edges@.len() && rg.edges@[e] == (p[i], p[i + 1]);
                        assert(cur@[e] == (ids@[p[i] as int], ids@[p[i + 1] as int]));
                        assert(cur@.to_set().contains(cur@[e]));
                    }
                    crate::graph::lemma_pointwise_path(dis_full, q);
                    assert(is_path(dis_full, q) && q.len() >= 2 && q.first() == q.last());
                    assert(has_cycle(dis_full));
                }
                return Err(e);
            },
        };
        let reduced = transitive_reduction(&clustering.edges);
        // Wire per-cluster synchronisation and extra ordering edges.
        let nc = clustering.clusters.len();
        proof {
            assert(nc <= rg.n && rg.n == ids@.len() && ids@.len() <= n_host);
            assert(n_host < 0x10000000);
        }
        let mut sync: Vec<ClusterSync> = Vec::new();
        let mut extra: Vec<(usize, usize)> = Vec::new();
        let mut j: usize = 0;
        while j < nc
            invariant
                self.wf(),
                n_host == self.configs.len(),
                valid_clustering(rg, clustering),
                nc == clustering.clusters.len(),
                rg.n == ids.len(),
                ids.len() <= n_host,
                nc <= rg.n,
                forall|i: int|
                    0 <= i < ids.len() ==> (#[trigger] ids[i] as int) < n_host,
                j <= nc,
                sync.len() == j,
                forall|j2: int|
                    0 <= j2 < j ==> {
                        let sy = #[trigger] sync[j2];
                        let cl = clustering.clusters[j2];
                        &&& (forall|a: usize|
                            sy.waits@.contains(a) <==> reduced@.contains((a, j2 as usize)))
                        &&& (cl.info.is_standalone ==> sy.queue_node == ids[cl.nodes[0] as int]
                            && sy.prelude is None && sy.submission is None)
                        &&& (!cl.info.is_standalone ==> (sy.queue_node as int) == submission_id(
                            n_host as int,
                            j2,
                        ) && sy.prelude == Some((prelude_id(n_host as int, j2)) as usize)
                            && sy.submission == Some((submission_id(n_host as int, j2)) as usize)
                            && (forall|i: int|
                            0 <= i < cl.nodes.len() ==> extra@.contains(
                                ((prelude_id(n_host as int, j2) as usize, ids[#[trigger] cl.nodes[i] as int])),
                            ) && extra@.contains(
                                ((ids[cl.nodes[i] as int], submission_id(n_host as int, j2) as usize)),
                            )))
                    },
            decreases nc - j,
        {
            let cl_standalone = clustering.clusters[j].info.is_standalone;
            // Collect the reduced incoming edges as timeline waits.
            let mut waits: Vec<usize> = Vec::new();
            let mut i: usize = 0;
            while i < reduced.len()
                invariant
                    i <= reduced.len(),
                    forall|a: usize|
                        waits@.contains(a) <==> exists|i2: int|
                            0 <= i2 < i && #[trigger] reduced@[i2] == (a, j),
                decreases reduced.len() - i,
            {
                let ghost w_pre = waits@;
                let (src, dst) = reduced[i];
                if dst == j {
                    waits.push(src);
                }
                proof {
                    assert(reduced@[i as int] == (src, dst));
                    assert forall|a: usize| #[trigger]
                        waits@.contains(a) implies exists|i2: int|
                        0 <= i2 < i + 1 && #[trigger] reduced@[i2] == (a, j) by {
                        let ii = choose|ii: int| 0 <= ii < waits@.len() && waits@[ii] == a;
                        if ii < w_pre.len() {
                            assert(w_pre[ii] == a);
                            assert(w_pre.contains(a));
                        } else {
                            assert(a == src && dst == j);
                            assert(reduced@[i as int] == (a, j));
                        }
                    }
                    assert forall|a: usize| (exists|i2: int|
                        0 <= i2 < i + 1 && #[trigger] reduced@[i2] == (a, j)) implies waits@.contains(
                        a,
                    ) by {
                        let i2 = choose|i2: int| 0 <= i2 < i + 1 && #[trigger] reduced@[i2] == (a, j);
                        if i2 < i {
                            assert(w_pre.contains(a));
                            let ii = choose|ii: int| 0 <= ii < w_pre.len() && w_pre[ii] == a;
                            assert(waits@[ii] == a);
                        } else {
                            assert(waits@[waits@.len() - 1] == src);
                        }
                    }
                }
                i += 1;
            }
            proof {
                assert forall|a: usize| #[trigger] waits@.contains(a) <==> reduced@.contains(
                    (a, j),
                ) by {
                    if waits@.contains(a) {
                        let i2 = choose|i2: int|
                            0 <= i2 < reduced@.len() && #[trigger] reduced@[i2] == (a, j);
                    }
                    if reduced@.contains((a, j)) {
                        let i2 = choose|i2: int|
                            0 <= i2 < reduced@.len() && reduced@[i2] == (a, j);
                    }
                }
            }
            let ghost extra_pre0 = extra@;
            let ghost sync_pre = sync@;
            if cl_standalone {
                proof {
                    assert(cluster_wf(rg, clustering, j as int));
                }
                let qn = ids[clustering.clusters[j].nodes[0]];
                sync.push(ClusterSync { queue_node: qn, prelude: None, submission: None, waits });
                proof {
                    assert(sync@[j as int].queue_node == qn);
                    assert(forall|j2: int| 0 <= j2 < j ==> #[trigger] sync@[j2] == sync_pre[j2]);
                }
            } else {
                proof {
                    assert(j < nc && nc <= rg.n);
                }
                let pid = n_host + 2 * j;
                let sid = n_host + 2 * j + 1;
                // Order the prelude before every member and every member
                // before the submission.
                let mut i: usize = 0;
                while i < clustering.clusters[j].nodes.len()  
                    invariant
                        valid_clustering(rg, clustering),
                        (j as int) < clustering.clusters.len(),
                        rg.n == ids.len(),
                        i <= clustering.clusters[j as int].nodes.len(),
                        pid as int == prelude_id(n_host as int, j as int),
                        sid as int == submission_id(n_host as int, j as int),
                        forall|i2: int|
                            0 <= i2 < extra_pre0.len() ==> #[trigger] extra@.contains(
                                extra_pre0[i2],
                            ),
                        forall|i2: int|
                            0 <= i2 < i ==> extra@.contains(
                                ((pid, ids[#[trigger] clustering.clusters[j as int].nodes[i2] as int])),
                            ) && extra@.contains(
                                ((ids[clustering.clusters[j as int].nodes[i2] as int], sid)),
                            ),
                    decreases clustering.clusters[j as int].nodes.len() - i,
                {
                    let ghost e_pre = extra@;
                    proof {
                        assert(cluster_wf(rg, clustering, j as int));
                    }
                    let member = ids[clustering.clusters[j].nodes[i]];
                    extra.push((pid, member));
                    extra.push((member, sid));
                    proof {
                        assert(extra@[extra@.len() - 2] == (pid, member));
                        assert(extra@[extra@.len() - 1] == (member, sid));
                        assert forall|i2: int|
                            0 <= i2 < e_pre.len() implies #[trigger] extra@.contains(
                            e_pre[i2],
                        ) by {
                            assert(extra@[i2] == e_pre[i2]);
                        }
                        assert forall|i2: int|
                            0 <= i2 < extra_pre0.len() implies #[trigger] extra@.contains(
                            extra_pre0[i2],
                        ) by {
                            assert(e_pre.contains(extra_pre0[i2]));
                            let ii = choose|ii: int|
                                0 <= ii < e_pre.len() && e_pre[ii] == extra_pre0[i2];
                            assert(extra@[ii] == extra_pre0[i2]);
                        }
                    }
                    i += 1;
                }
                sync.push(
                    ClusterSync {
                        queue_node: sid,
                        prelude: Some(pid),
                        submission: Some(sid),
                        waits,
                    },
                );
                proof {
                    assert(forall|j2: int| 0 <= j2 < j ==> #[trigger] sync@[j2] == sync_pre[j2]);
                }
            }
            proof {
                assert forall|j2: int|
                    0 <= j2 < j + 1 implies {
                    let sy = #[trigger] sync@[j2];
                    let cl = clustering.clusters[j2];
                    &&& (forall|a: usize|
                        sy.waits@.contains(a) <==> reduced@.contains((a, j2 as usize)))
                    &&& (cl.info.is_standalone ==> sy.queue_node == ids[cl.nodes[0] as int]
                        && sy.prelude is None && sy.submission is None)
                    &&& (!cl.info.is_standalone ==> (sy.queue_node as int) == submission_id(
                        n_host as int,
                        j2,
                    ) && sy.prelude == Some((prelude_id(n_host as int, j2)) as usize)
                        && sy.submission == Some((submission_id(n_host as int, j2)) as usize)
                        && (forall|i2: int|
                        0 <= i2 < cl.nodes.len() ==> extra@.contains(
                            ((prelude_id(n_host as int, j2) as usize, ids[#[trigger] cl.nodes[i2] as int])),
                        ) && extra@.contains(
                            ((ids[cl.nodes[i2] as int], submission_id(n_host as int, j2) as usize)),
                        )))
                } by {
                    if j2 < j {
                        assert(sync@[j2] == sync_pre[j2]);
                        if !clustering.clusters[j2].info.is_standalone {
                            assert forall|i2: int|
                                0 <= i2 < clustering.clusters[j2].nodes.len() implies extra@.contains(
                                ((prelude_id(n_host as int, j2) as usize, ids[#[trigger] clustering.clusters[j2].nodes[i2] as int])),
                            ) && extra@.contains(
                                ((ids[clustering.clusters[j2].nodes[i2] as int], submission_id(n_host as int, j2) as usize)),
                            ) by {
                                let e1 = (prelude_id(n_host as int, j2) as usize, ids[clustering.clusters[j2].nodes[i2] as int]);
                                let e2 = (ids[clustering.clusters[j2].nodes[i2] as int], submission_id(n_host as int, j2) as usize);
                                let ii1 = choose|ii: int|
                                    0 <= ii < extra_pre0.len() && extra_pre0[ii] == e1;
                                let ii2 = choose|ii: int|
                                    0 <= ii < extra_pre0.len() && extra_pre0[ii] == e2;
                                assert(extra@.contains(extra_pre0[ii1]));
                                assert(extra@.contains(extra_pre0[ii2]));
                            }
                        }
                    }
                }
            }
            j += 1;
        }
        // Order queue nodes along every reduced cluster edge.
        proof {
            assert forall|i2: int|
                0 <= i2 < reduced.len() implies ((#[trigger] reduced[i2]).0 < nc && reduced[i2].1
                < nc) by {
                assert(clustering.edges@.contains(reduced@[i2]));
                let e = choose|e: int|
                    0 <= e < clustering.edges@.len() && clustering.edges@[e] == reduced@[i2];
                assert(crate::cluster::cedge_ok(rg, clustering, clustering.edges[e]));
            }
        }
        let ghost extra_mid = extra@;
        let mut i: usize = 0;
        while i < reduced.len()
            invariant
                i <= reduced.len(),
                sync.len() == nc,
                forall|i2: int|
                    0 <= i2 < reduced.len() ==> ((#[trigger] reduced[i2]).0 < nc
                        && reduced[i2].1 < nc),
                forall|i2: int|
                    0 <= i2 < extra_mid.len() ==> #[trigger] extra@.contains(extra_mid[i2]),
                forall|i2: int|
                    0 <= i2 < i ==> extra@.contains(
                        (
                            sync[(#[trigger] reduced[i2]).0 as int].queue_node,
                            sync[reduced[i2].1 as int].queue_node,
                        ),
                    ),
            decreases reduced.len() - i,
        {
            let ghost e_pre = extra@;
            let (src, dst) = reduced[i];
            extra.push((sync[src].queue_node, sync[dst].queue_node));
            proof {
                assert(extra@[extra@.len() - 1] == (
                    sync@[src as int].queue_node,
                    sync@[dst as int].queue_node,
                ));
                assert forall|i2: int|
                    0 <= i2 < e_pre.len() implies #[trigger] extra@.contains(e_pre[i2]) by {
                    assert(extra@[i2] == e_pre[i2]);
                }
                assert forall|i2: int|
                    0 <= i2 < extra_mid.len() implies #[trigger] extra@.contains(
                    extra_mid[i2],
                ) by {
                    assert(e_pre.contains(extra_mid[i2]));
                    let ii = choose|ii: int|
                        0 <= ii < e_pre.len() && e_pre[ii] == extra_mid[i2];
                    assert(extra@[ii] == extra_mid[i2]);
                }
                assert forall|i2: int|
                    0 <= i2 < i + 1 implies extra@.contains(
                    (
                        sync@[(#[trigger] reduced@[i2]).0 as int].queue_node,
                        sync@[reduced@[i2].1 as int].queue_node,
                    ),
                ) by {
                    if i2 < i {
                        let e = (
                            sync@[reduced@[i2].0 as int].queue_node,
                            sync@[reduced@[i2].1 as int].queue_node,
                        );
                        let ii = choose|ii: int| 0 <= ii < e_pre.len() && e_pre[ii] == e;
                        assert(extra@.contains(e_pre[ii]));
                    }
                }
            }
            i += 1;
        }
        let ghost extra_fin = extra@;
        let plan = SchedulePlan {
            graph: rg,
            system_ids: ids,
            clustering,
            reduced,
            sync,
            extra_edges: extra,
        };
        proof {
            let n_host_i = self.configs.len() as int;
            // Colours are equal in the compact graph exactly when the host
            // colours were equal.
            assert forall|i1: int, i2: int|
                0 <= i1 < plan.graph.n && 0 <= i2 < plan.graph.n implies (((
            #[trigger] plan.graph.infos[i1]).color == (#[trigger] plan.graph.infos[i2]).color)
                <==> (self.configs[plan.system_ids[i1] as int]->0.color
                == self.configs[plan.system_ids[i2] as int]->0.color)) by {
                assert(colors@[plan.graph.infos[i1].color as int]
                    == self.configs[plan.system_ids[i1] as int]->0.color);
                assert(colors@[plan.graph.infos[i2].color as int]
                    == self.configs[plan.system_ids[i2] as int]->0.color);
            }
            // Compact edges mirror the dissolved host edges.
            assert forall|i: int, j2: int|
                0 <= i < plan.graph.n && 0 <= j2 < plan.graph.n implies (plan.graph.edge_set()
                .contains(((i as usize, j2 as usize))) <==> dis_full.contains(
                (plan.system_ids[i], plan.system_ids[j2]),
            )) by {
                if plan.graph.edge_set().contains(((i as usize, j2 as usize))) {
                    let k2 = choose|k2: int|
                        0 <= k2 < plan.graph.edges@.len() && plan.graph.edges@[k2] == (
                            i as usize,
                            j2 as usize,
                        );
                    assert(ids@[plan.graph.edges@[k2].0 as int] == cur@[k2].0);
                    assert(ids@[plan.graph.edges@[k2].1 as int] == cur@[k2].1);
                    assert(cur@.to_set().contains(cur@[k2]));
                }
                if dis_full.contains((plan.system_ids[i], plan.system_ids[j2])) {
                    let k2 = choose|k2: int|
                        0 <= k2 < cur@.len() && cur@[k2] == (
                            plan.system_ids@[i],
                            plan.system_ids@[j2],
                        );
                    assert(plan.graph.edges@[k2] == (
                        comp@[cur@[k2].0 as int],
                        comp@[cur@[k2].1 as int],
                    ));
                    assert((comp@[ids@[i] as int] as int) == i);
                    assert((comp@[ids@[j2] as int] as int) == j2);
                    assert(plan.graph.edges@[k2] == (i as usize, j2 as usize));
                    assert(plan.graph.edges@.contains(plan.graph.edges@[k2]));
                }
            }
            // Per-cluster synchronisation.
            assert forall|j2: int| 0 <= j2 < plan.sync.len() implies #[trigger] sync_ok(
                *self,
                plan,
                j2,
            ) by {
                let sy = plan.sync[j2];
                let cl = plan.clustering.clusters[j2];
                if !cl.info.is_standalone {
                    assert forall|i2: int|
                        0 <= i2 < cl.nodes.len() implies plan.extra_edges@.contains(
                        ((prelude_id(n_host_i, j2) as usize, plan.system_ids[#[trigger] cl.nodes[i2] as int])),
                    ) && plan.extra_edges@.contains(
                        ((plan.system_ids[cl.nodes[i2] as int], submission_id(n_host_i, j2) as usize)),
                    ) by {
                        let e1 = (
                            prelude_id(n_host_i, j2) as usize,
                            plan.system_ids@[cl.nodes[i2] as int],
                        );
                        let e2 = (
                            plan.system_ids@[cl.nodes[i2] as int],
                            submission_id(n_host_i, j2) as usize,
                        );
                        assert(extra_mid.contains(e1) && extra_mid.contains(e2));
                        let ii1 = choose|ii: int|
                            0 <= ii < extra_mid.len() && extra_mid[ii] == e1;
                        let ii2 = choose|ii: int|
                            0 <= ii < extra_mid.len() && extra_mid[ii] == e2;
                        assert(extra_fin.contains(extra_mid[ii1]));
                        assert(extra_fin.contains(extra_mid[ii2]));
                    }
                }
                assert forall|i2: int|
                    0 <= i2 < plan.reduced.len() && (#[trigger] plan.reduced[i2]).0
                        == j2 as usize implies plan.extra_edges@.contains(
                    (
                        plan.sync[j2].queue_node,
                        plan.sync[plan.reduced[i2].1 as int].queue_node,
                    ),
                ) by {
                    assert(extra_fin.contains(
                        (
                            sync@[(reduced@[i2]).0 as int].queue_node,
                            sync@[reduced@[i2].1 as int].queue_node,
                        ),
                    ));
                }
            }
            assert(build_plan_ok(*self, plan));
            // A cycle in the dissolved host graph would map pointwise onto
            // the compact graph, which clustering proved acyclic.
            assert(!has_cycle(dis_full)) by {
                if has_cycle(dis_full) {
                    let p = choose|p: Seq<usize>|
                        is_path(dis_full, p) && p.len() >= 2 && p.first() == p.last();
                    let q = p.map_values(|x: usize| comp@[x as int]);
                    assert forall|i2: int| 0 <= i2 < q.len() - 1 implies rg.edge_set().contains(
                        (#[trigger] q[i2], q[i2 + 1]),
                    ) by {
                        crate::graph::lemma_path_edges(dis_full, p, i2);
                        assert(cur@.to_set().contains((p[i2], p[i2 + 1])));
                        let k2 = choose|k2: int|
                            0 <= k2 < cur@.len() && cur@[k2] == (p[i2], p[i2 + 1]);
                        assert(plan.graph.edges@[k2] == (
                            comp@[cur@[k2].0 as int],
                            comp@[cur@[k2].1 as int],
                        ));
                        assert(plan.graph.edges@.contains(plan.graph.edges@[k2]));
                    }
                    crate::graph::lemma_pointwise_path(rg.edge_set(), q);
                    assert(is_path(rg.edge_set(), q) && q.len() >= 2 && q.first() == q.last());
                    assert(has_cycle(rg.edge_set()));
                }
            }
        }
        Ok(plan)
    }
}

} // verus!
