//! Render-graph clustering.
//!
//! The user-authored dependency DAG of render systems is collapsed into a
//! DAG of per-queue submission clusters: every cluster runs on exactly one
//! queue, clusters never form a cycle, and systems are packed into as few
//! clusters as the layer-by-layer sweep allows.
//!
//! The sweep peels the graph by layers.  Within one layer it keeps a small
//! "colour micro-graph" whose nodes are (queue colour, standalone flag)
//! pairs; a node is deferred to the next layer whenever emitting it would
//! close a cycle in that micro-graph, so each layer's clusters can always
//! be ordered.  The micro-graph of every layer is returned as a ghost
//! certificate, from which [`lemma_clustering_acyclic`] proves that the
//! cluster graph has no directed cycle.

use vstd::prelude::*;
use crate::digraph::{digraph_add_edge, digraph_clear, digraph_edges, digraph_has_path, digraph_new};
use crate::error::SchedulerError;
use crate::graph::{
    acyclic, has_cycle, is_path, lemma_acyclic_insert, lemma_path_edges, lemma_pointwise_path,
    lemma_rank_acyclic, lemma_reaches_empty, lemma_reaches_insert_into,
    lemma_stuck_set_has_cycle, reaches,
};

verus! {

/// The scheduling identity of one render system: which logical queue it
/// runs on, and whether it must form a cluster of its own.
#[derive(Clone, Copy, Debug, PartialEq, Eq, Structural)]
pub struct NodeInfo {
    pub color: u32,
    pub is_standalone: bool,
}

/// Encodes a scheduling identity as a single micro-graph node.
pub open spec fn enc_info(info: NodeInfo) -> u64 {
    (info.color as u64 * 2 + (if info.is_standalone {
        1u64
    } else {
        0u64
    })) as u64
}

/// Identities with equal encodings are equal.
pub proof fn lemma_enc_injective(a: NodeInfo, b: NodeInfo)
    requires
        enc_info(a) == enc_info(b),
    ensures
        a == b,
{
}

fn enc_of(info: NodeInfo) -> (r: u64)
    ensures
        r == enc_info(info),
{
    info.color as u64 * 2 + (if info.is_standalone {
        1u64
    } else {
        0u64
    })
}

/// The flattened user dependency graph handed to the clustering pass.
///
/// Nodes are `0 .. n`; an edge `(u, v)` means `u` must run before `v`.
/// Colours are dense indices, so every colour is below `n`.
pub struct RenderGraph {
    pub n: usize,
    pub edges: Vec<(usize, usize)>,
    pub infos: Vec<NodeInfo>,
}

impl RenderGraph {
    /// Well-formed: indices in range, no self-edges, no duplicate edges,
    /// colours dense.
    pub open spec fn wf(self) -> bool {
        &&& self.infos.len() == self.n
        &&& forall|k: int|
            0 <= k < self.edges.len() ==> (#[trigger] self.edges[k]).0 < self.n
                && self.edges[k].1 < self.n && self.edges[k].0 != self.edges[k].1
        &&& forall|k1: int, k2: int|
            0 <= k1 < k2 < self.edges.len() ==> #[trigger] self.edges[k1]
                != #[trigger] self.edges[k2]
        &&& forall|v: int| 0 <= v < self.n ==> (#[trigger] self.infos[v]).color < self.n
    }

    /// The edge set of the graph.
    pub open spec fn edge_set(self) -> Set<(usize, usize)> {
        self.edges@.to_set()
    }

    /// Validates and builds a graph: `n` nodes, one identity per node, and
    /// the given dependency edges.  Returns `None` exactly when the input
    /// breaks well-formedness.
    pub fn new(n: usize, edges: Vec<(usize, usize)>, infos: Vec<NodeInfo>) -> (r: Option<
        RenderGraph,
    >)
        ensures
            r matches Some(g) ==> g.wf() && g.n == n && g.edges == edges && g.infos == infos,
            r is None ==> !(RenderGraph { n, edges, infos }).wf(),
    {
        if infos.len() != n {
            return None;
        }
        let mut v: usize = 0;
        while v < n
            invariant
                n == infos.len(),
                v <= n,
                forall|i: int| 0 <= i < v ==> (#[trigger] infos[i]).color < n,
            decreases n - v,
        {
            if infos[v].color as usize >= n {
                return None;
            }
            v += 1;
        }
        let mut k: usize = 0;
        while k < edges.len()
            invariant
                forall|i: int|
                    0 <= i < k ==> (#[trigger] edges[i]).0 < n && edges[i].1 < n && edges[i].0
                        != edges[i].1,
                forall|i1: int, i2: int|
                    0 <= i1 < i2 < k ==> #[trigger] edges[i1] != #[trigger] edges[i2],
                k <= edges.len(),
            decreases edges.len() - k,
        {
            let (a, b) = edges[k];
            proof {
                assert(edges[k as int] == (a, b));
            }
            if a >= n || b >= n || a == b {
                proof {
                    let g = RenderGraph { n, edges, infos };
                    assert(g.edges[k as int] == (a, b));
                    assert(!g.wf());
                }
                return None;
            }
            let mut j: usize = 0;
            while j < k
                invariant
                    j <= k < edges.len(),
                    edges[k as int] == (a, b),
                    forall|i: int| 0 <= i < j ==> #[trigger] edges[i] != edges[k as int],
                decreases k - j,
            {
                if edges[j].0 == a && edges[j].1 == b {
                    proof {
                        let g = RenderGraph { n, edges, infos };
                        assert(g.edges[j as int] == g.edges[k as int]);
                        assert(!g.wf());
                    }
                    return None;
                }
                proof {
                    assert(edges[j as int] != (a, b));
                }
                j += 1;
            }
            k += 1;
        }
        Some(RenderGraph { n, edges, infos })
    }
}

/// Every predecessor of `v` has been emitted.
pub open spec fn preds_done(g: RenderGraph, done: Seq<bool>, v: usize) -> bool {
    forall|k: int|
        0 <= k < g.edges.len() && (#[trigger] g.edges[k]).1 == v ==> done[g.edges[k].0 as int]
}

/// A worklist entry: in range, not yet emitted, all predecessors emitted.
pub open spec fn ready_node(g: RenderGraph, done: Seq<bool>, v: usize) -> bool {
    (v as int) < g.n && !done[v as int] && preds_done(g, done, v)
}

pub open spec fn worklist_ok(g: RenderGraph, done: Seq<bool>, h: Seq<usize>) -> bool {
    forall|i: int| 0 <= i < h.len() ==> ready_node(g, done, #[trigger] h[i])
}

pub open spec fn distinct_seq<T>(s: Seq<T>) -> bool {
    forall|i: int, j: int| 0 <= i < j < s.len() ==> s[i] != s[j]
}

pub open spec fn disjoint_seqs<T>(a: Seq<T>, b: Seq<T>) -> bool {
    forall|i: int, j: int| 0 <= i < a.len() && 0 <= j < b.len() ==> a[i] != b[j]
}

/// A node that is neither emitted nor queued still has an unemitted
/// predecessor (so only cyclic inputs can strand nodes).
pub open spec fn node_live(
    g: RenderGraph,
    done: Seq<bool>,
    h: Seq<usize>,
    nx: Seq<usize>,
    v: usize,
) -> bool {
    ((v as int) < g.n && !done[v as int] && !h.contains(v) && !nx.contains(v)) ==> exists|k: int|
        0 <= k < g.edges.len() && (#[trigger] g.edges[k]).1 == v && !done[g.edges[k].0 as int]
}

pub open spec fn all_live(g: RenderGraph, done: Seq<bool>, h: Seq<usize>, nx: Seq<usize>) -> bool {
    forall|v: usize| #[trigger] node_live(g, done, h, nx, v)
}

/// One dependency edge respects the layering: the predecessor's layer is
/// no later, and a same-layer crossing between different identities is
/// recorded in that layer's colour micro-graph.
pub open spec fn edge_stage_ok(
    g: RenderGraph,
    done: Seq<bool>,
    st: Seq<usize>,
    hist: Seq<Set<(u64, u64)>>,
    now: Set<(u64, u64)>,
    si: int,
    k: int,
) -> bool {
    {
        let u = g.edges[k].0 as int;
        let v = g.edges[k].1 as int;
        done[v] ==> {
            &&& done[u]
            &&& st[u] <= st[v]
            &&& st[v] <= si
            &&& (st[u] == st[v] && enc_info(g.infos[u]) != enc_info(g.infos[v]) ==> (if st[v] < si {
                hist[st[v] as int]
            } else {
                now
            }).contains((enc_info(g.infos[u]), enc_info(g.infos[v]))))
        }
    }
}

pub open spec fn edges_stage_ok(
    g: RenderGraph,
    done: Seq<bool>,
    st: Seq<usize>,
    hist: Seq<Set<(u64, u64)>>,
    now: Set<(u64, u64)>,
    si: int,
) -> bool {
    forall|k: int| 0 <= k < g.edges.len() ==> #[trigger] edge_stage_ok(g, done, st, hist, now, si, k)
}

/// Emitted nodes are stamped with a layer no later than the current one.
pub open spec fn stamps_ok(g: RenderGraph, done: Seq<bool>, st: Seq<usize>, si: int) -> bool {
    forall|v: int| 0 <= v < g.n && done[v] ==> #[trigger] st[v] <= si
}

/// Some emitted standalone node of colour `c` lives in the current layer.
pub open spec fn standalone_at(
    g: RenderGraph,
    done: Seq<bool>,
    st: Seq<usize>,
    si: int,
    c: int,
) -> bool {
    exists|v: int|
        0 <= v < g.n && done[v] && st[v] == si && (#[trigger] g.infos[v]).is_standalone
            && g.infos[v].color == c
}

pub open spec fn flags_ok(
    g: RenderGraph,
    done: Seq<bool>,
    st: Seq<usize>,
    flag: Seq<bool>,
    si: int,
) -> bool {
    forall|c: int| 0 <= c < g.n ==> ((#[trigger] flag[c]) <==> standalone_at(g, done, st, si, c))
}

/// At most one standalone system of a colour per layer.
pub open spec fn standalone_unique(g: RenderGraph, done: Seq<bool>, st: Seq<usize>) -> bool {
    forall|v: int, w: int|
        0 <= v < g.n && 0 <= w < g.n && v != w && done[v] && done[w]
            && (#[trigger] g.infos[v]).is_standalone && (#[trigger] g.infos[w]).is_standalone
            && g.infos[v].color == g.infos[w].color ==> st[v] != st[w]
}

/// Layer histories hold acyclic micro-graphs without self-edges.
pub open spec fn hist_ok(hist: Seq<Set<(u64, u64)>>) -> bool {
    &&& forall|s: int| 0 <= s < hist.len() ==> acyclic(#[trigger] hist[s])
    &&& forall|s: int| 0 <= s < hist.len() ==> no_self_pairs(#[trigger] hist[s])
}

pub open spec fn no_self_pairs(e: Set<(u64, u64)>) -> bool {
    forall|x: u64| !(#[trigger] e.contains((x, x)))
}

/// The emitted nodes, as a set of indices.
pub open spec fn done_set(done: Seq<bool>) -> Set<int> {
    Set::new(|v: int| 0 <= v < done.len() && done[v])
}

pub proof fn lemma_done_set_finite(done: Seq<bool>)
    ensures
        done_set(done).finite(),
        done_set(done).len() <= done.len(),
{
    vstd::set_lib::lemma_int_range(0, done.len() as int);
    assert(done_set(done).subset_of(vstd::set_lib::set_int_range(0, done.len() as int)));
    vstd::set_lib::lemma_set_subset_finite(
        vstd::set_lib::set_int_range(0, done.len() as int),
        done_set(done),
    );
    vstd::set_lib::lemma_len_subset(
        done_set(done),
        vstd::set_lib::set_int_range(0, done.len() as int),
    );
}

pub proof fn lemma_done_set_grows(done: Seq<bool>, v: int)
    requires
        0 <= v < done.len(),
        !done[v],
    ensures
        done_set(done.update(v, true)) =~= done_set(done).insert(v),
        done_set(done.update(v, true)).len() == done_set(done).len() + 1,
{
    lemma_done_set_finite(done);
    assert(done_set(done.update(v, true)) =~= done_set(done).insert(v));
}

/// The result of the layering sweep.
pub struct StageAssign {
    /// Layer index per node.
    pub stage_of: Vec<usize>,
    /// Number of layers used.
    pub num_stages: usize,
    /// Per-layer colour micro-graph edge sets, the acyclicity certificate.
    pub tiny: Ghost<Seq<Set<(u64, u64)>>>,
}

pub open spec fn stages_ok(g: RenderGraph, a: StageAssign) -> bool {
    &&& a.stage_of.len() == g.n
    &&& a.tiny@.len() == a.num_stages
    &&& forall|v: int| 0 <= v < g.n ==> (#[trigger] a.stage_of[v]) < a.num_stages
    &&& hist_ok(a.tiny@)
    &&& forall|k: int|
        0 <= k < g.edges.len() ==> {
            let u = (#[trigger] g.edges[k]).0 as int;
            let v = g.edges[k].1 as int;
            &&& a.stage_of[u] <= a.stage_of[v]
            &&& (a.stage_of[u] == a.stage_of[v] && enc_info(g.infos[u]) != enc_info(g.infos[v])
                ==> a.tiny@[a.stage_of[v] as int].contains(
                (enc_info(g.infos[u]), enc_info(g.infos[v])),
            ))
        }
    &&& standalone_unique(g, Seq::new(g.n as nat, |i: int| true), a.stage_of@)
}


/// During a pred scan of node `v`, no micro-graph path runs from `v`'s
/// identity to any differing predecessor identity seen so far.
pub open spec fn no_path_to_preds(
    g: RenderGraph,
    e: Set<(u64, u64)>,
    v: usize,
    upto: int,
) -> bool {
    forall|i: int|
        0 <= i < upto && (#[trigger] g.edges[i]).1 == v && enc_info(g.infos[g.edges[i].0 as int])
            != enc_info(g.infos[v as int]) ==> !reaches(
            e,
            enc_info(g.infos[v as int]),
            enc_info(g.infos[g.edges[i].0 as int]),
        )
}

/// Micro-graph edges recorded so far for `v`'s same-layer predecessors.
pub open spec fn recorded_upto(
    g: RenderGraph,
    e: Set<(u64, u64)>,
    st: Seq<usize>,
    si: int,
    v: usize,
    upto: int,
) -> bool {
    forall|i: int|
        0 <= i < upto && (#[trigger] g.edges[i]).1 == v && st[g.edges[i].0 as int] == si
            && enc_info(g.infos[g.edges[i].0 as int]) != enc_info(g.infos[v as int])
            ==> e.contains(
            (enc_info(g.infos[g.edges[i].0 as int]), enc_info(g.infos[v as int])),
        )
}

/// Liveness, weakened while the children of a just-emitted node `v` are
/// still being scanned from edge index `from` on.
pub open spec fn live_or_child(
    g: RenderGraph,
    done: Seq<bool>,
    h: Seq<usize>,
    nx: Seq<usize>,
    v: usize,
    from: int,
    x: usize,
) -> bool {
    ((x as int) < g.n && !done[x as int] && !h.contains(x) && !nx.contains(x)) ==> {
        ||| exists|k: int|
            0 <= k < g.edges.len() && (#[trigger] g.edges[k]).1 == x && !done[g.edges[k].0 as int]
        ||| exists|j: int| from <= j < g.edges.len() && #[trigger] g.edges[j] == (v, x)
    }
}

/// Worklist entries were ready even before the current emission.
pub open spec fn was_ready(g: RenderGraph, done0: Seq<bool>, h: Seq<usize>) -> bool {
    forall|i: int| 0 <= i < h.len() ==> preds_done(g, done0, #[trigger] h[i])
}

/// Assigns every system to a layer by peeling the dependency graph, and
/// returns the per-layer colour micro-graphs as the acyclicity
/// certificate.  Fails with `ScheduleCycle` exactly when the input has a
/// dependency cycle, so a well-formed DAG is always assigned.
pub fn assign_stages(g: &RenderGraph) -> (r: Result<StageAssign, SchedulerError>)
    requires
        g.wf(),
    ensures
        r matches Ok(a) ==> stages_ok(*g, a),
        r is Ok ==> acyclic(g.edge_set()),
        r is Err ==> has_cycle(g.edge_set()) && r == Result::<StageAssign, SchedulerError>::Err(
            SchedulerError::ScheduleCycle,
        ),
{
    let n = g.n;
    let mut done: Vec<bool> = vec![false; n];
    let mut st: Vec<usize> = vec![0usize; n];
    let mut flag: Vec<bool> = vec![false; n];
    let mut heap: Vec<usize> = Vec::new();
    let mut next: Vec<usize> = Vec::new();
    let mut tiny = digraph_new();
    let ghost mut hist: Seq<Set<(u64, u64)>> = Seq::empty();
    let ghost mut emit_ord: Seq<int> = Seq::new(n as nat, |i: int| 0);
    let mut si: usize = 0;

    // Seed the worklist with the sources of the graph.
    let mut v: usize = 0;
    while v < n
        invariant
            g.wf(),
            n == g.n,
            done@.len() == n,
            v <= n,
            forall|i: int| 0 <= i < n ==> !done@[i],
            worklist_ok(*g, done@, heap@),
            distinct_seq(heap@),
            forall|i: int| 0 <= i < heap@.len() ==> (#[trigger] heap@[i] as int) < v,
            forall|x: usize|
                (x as int) < v && !done@[x as int] && !heap@.contains(x) ==> exists|k: int|
                    0 <= k < g.edges.len() && (#[trigger] g.edges[k]).1 == x
                        && !done@[g.edges[k].0 as int],
        decreases n - v,
    {
        let mut has_pred = false;
        let mut k: usize = 0;
        while k < g.edges.len()
            invariant
                g.wf(),
                k <= g.edges.len(),
                has_pred ==> exists|i: int|
                    0 <= i < g.edges.len() && (#[trigger] g.edges[i]).1 == v,
                !has_pred ==> forall|i: int| 0 <= i < k ==> (#[trigger] g.edges[i]).1 != v,
            decreases g.edges.len() - k,
        {
            if g.edges[k].1 == v {
                has_pred = true;
            }
            k += 1;
        }
        let ghost heap_before = heap@;
        if !has_pred {
            proof {
                assert(preds_done(*g, done@, v));
            }
            heap.push(v);
        }
        proof {
            assert forall|x: usize|
                (x as int) < v + 1 && !done@[x as int] && !heap@.contains(x) implies exists|k2: int|
                    0 <= k2 < g.edges.len() && (#[trigger] g.edges[k2]).1 == x
                        && !done@[g.edges[k2].0 as int] by {
                if x == v {
                    if !has_pred {
                        assert(heap@[heap@.len() - 1] == v);
                        assert(false);
                    }
                    let i = choose|i: int|
                        0 <= i < g.edges.len() && (#[trigger] g.edges[i]).1 == v;
                    assert(!done@[g.edges[i].0 as int]);
                } else {
                    assert(!heap_before.contains(x)) by {
                        if heap_before.contains(x) {
                            let i = choose|i: int|
                                0 <= i < heap_before.len() && heap_before[i] == x;
                            assert(heap@[i] == x);
                        }
                    }
                }
            }
        }
        v += 1;
    }

    while heap.len() > 0
        invariant
            g.wf(),
            n == g.n,
            done@.len() == n,
            st@.len() == n,
            flag@.len() == n,
            hist.len() == si,
            si <= done_set(done@).len(),
            forall|w: int| 0 <= w < n && done@[w] ==> (#[trigger] st@[w] as int) < si,
            edges_stage_ok(*g, done@, st@, hist, digraph_edges(tiny), si as int),
            hist_ok(hist),
            digraph_edges(tiny) == Set::<(u64, u64)>::empty(),
            forall|c: int| 0 <= c < n ==> !(#[trigger] flag@[c]),
            worklist_ok(*g, done@, heap@),
            next@.len() == 0,
            distinct_seq(heap@),
            all_live(*g, done@, heap@, next@),
            standalone_unique(*g, done@, st@),
            emit_ord.len() == n,
            forall|x: int| 0 <= x < n && done@[x] ==> #[trigger] emit_ord[x] <= done_set(done@).len(),
            forall|k: int|
                0 <= k < g.edges.len() && done@[(#[trigger] g.edges[k]).1 as int]
                    ==> emit_ord[g.edges[k].0 as int] < emit_ord[g.edges[k].1 as int],
        decreases n - done_set(done@).len(),
    {
        let ghost done0_outer = done@;
        let ghost h0 = heap@;
        proof {
            lemma_done_set_finite(done@);
        }
        while heap.len() > 0
            invariant
                g.wf(),
                n == g.n,
                done@.len() == n,
                st@.len() == n,
                flag@.len() == n,
                hist.len() == si,
                si <= done_set(done@).len(),
                stamps_ok(*g, done@, st@, si as int),
                edges_stage_ok(*g, done@, st@, hist, digraph_edges(tiny), si as int),
                hist_ok(hist),
                acyclic(digraph_edges(tiny)),
                no_self_pairs(digraph_edges(tiny)),
                flags_ok(*g, done@, st@, flag@, si as int),
                worklist_ok(*g, done@, heap@),
                worklist_ok(*g, done@, next@),
                distinct_seq(heap@),
                distinct_seq(next@),
                disjoint_seqs(heap@, next@),
                all_live(*g, done@, heap@, next@),
                standalone_unique(*g, done@, st@),
                emit_ord.len() == n,
                forall|x: int|
                    0 <= x < n && done@[x] ==> #[trigger] emit_ord[x] <= done_set(done@).len(),
                forall|k: int|
                    0 <= k < g.edges.len() && done@[(#[trigger] g.edges[k]).1 as int]
                        ==> emit_ord[g.edges[k].0 as int] < emit_ord[g.edges[k].1 as int],
                done_set(done@).len() > done_set(done0_outer).len() || (done@ == done0_outer
                    && heap@ == h0 && next@.len() == 0 && digraph_edges(tiny) == Set::<(
                    u64,
                    u64,
                )>::empty() && (forall|c: int| 0 <= c < n ==> !(#[trigger] flag@[c]))),
            decreases n - done_set(done@).len(), heap@.len(),
        {
            let ghost done_pre = done@;
            let ghost heap_pre = heap@;
            let v = heap.pop().unwrap();
            proof {
                assert(heap_pre[heap_pre.len() - 1] == v);
                assert(ready_node(*g, done@, v));
            }
            let info = g.infos[v];
            let ev = enc_of(info);
            let ghost tiny_now = digraph_edges(tiny);
            let mut defer = false;
            if info.is_standalone {
                if flag[info.color as usize] {
                    defer = true;
                }
            }
            let mut k: usize = 0;
            while k < g.edges.len()
                invariant
                    g.wf(),
                    n == g.n,
                    (v as int) < n,
                    k <= g.edges.len(),
                    ev == enc_info(g.infos[v as int]),
                    (g.infos[v as int].color as int) < n,
                    flag@.len() == n,
                    digraph_edges(tiny) == tiny_now,
                    (info.is_standalone && flag@[info.color as int]) ==> defer,
                    !defer ==> no_path_to_preds(*g, tiny_now, v, k as int),
                    defer ==> ((info.is_standalone && flag@[info.color as int]) || tiny_now
                        != Set::<(u64, u64)>::empty()),
                    info == g.infos[v as int],
                decreases g.edges.len() - k,
            {
                let (u, w) = g.edges[k];
                if w == v {
                    let eu = enc_of(g.infos[u]);
                    if eu != ev {
                        if digraph_has_path(&tiny, ev, eu) {
                            proof {
                                if tiny_now == Set::<(u64, u64)>::empty() {
                                    lemma_reaches_empty::<u64>(ev, eu);
                                }
                            }
                            defer = true;
                        }
                    }
                }
                k += 1;
            }
            if defer {
                let ghost next_pre = next@;
                next.push(v);
                proof {
                    assert(next@[next@.len() - 1] == v);
                    assert(next@.contains(v));
                    // New worklists stay distinct, ready and disjoint.
                    assert(!next_pre.contains(v)) by {
                        if next_pre.contains(v) {
                            let i = choose|i: int|
                                0 <= i < next_pre.len() && next_pre[i] == v;
                            assert(heap_pre[heap_pre.len() - 1] == next_pre[i]);
                        }
                    }
                    assert forall|i: int| 0 <= i < next@.len() implies ready_node(
                        *g,
                        done@,
                        #[trigger] next@[i],
                    ) by {
                        if i < next@.len() - 1 {
                            assert(next@[i] == next_pre[i]);
                        }
                    }
                    assert forall|i: int, j: int|
                        0 <= i < heap@.len() && 0 <= j < next@.len() implies heap@[i]
                        != next@[j] by {
                        assert(heap@[i] == heap_pre[i]);
                        if j < next@.len() - 1 {
                            assert(next@[j] == next_pre[j]);
                        } else {
                            assert(next@[j] == v && heap_pre[heap_pre.len() - 1] == v);
                        }
                    }
                    assert forall|x: usize| #[trigger]
                        node_live(*g, done@, heap@, next@, x) by {
                        if (x as int) < g.n && !done@[x as int] && !heap@.contains(x)
                            && !next@.contains(x) {
                            assert(x != v);
                            assert(!next_pre.contains(x)) by {
                                if next_pre.contains(x) {
                                    let i = choose|i: int|
                                        0 <= i < next_pre.len() && next_pre[i] == x;
                                    assert(next@[i] == x);
                                }
                            }
                            assert(!heap_pre.contains(x)) by {
                                if heap_pre.contains(x) {
                                    let i = choose|i: int|
                                        0 <= i < heap_pre.len() && heap_pre[i] == x;
                                    if i < heap_pre.len() - 1 {
                                        assert(heap@[i] == x);
                                    }
                                }
                            }
                            assert(node_live(*g, done@, heap_pre, next_pre, x));
                        }
                    }
                }
            } else {
                // Emit `v` into the current layer.
                let ghost done0 = done@;
                let ghost st0 = st@;
                let ghost tiny0 = digraph_edges(tiny);
                st[v] = si;
                done[v] = true;
                proof {
                    lemma_done_set_grows(done0, v as int);
                    lemma_done_set_finite(done0);
                    emit_ord = emit_ord.update(v as int, done_set(done@).len() as int);
                    assert forall|k2: int|
                        0 <= k2 < g.edges.len() && done@[(#[trigger] g.edges[k2]).1 as int]
                            implies emit_ord[g.edges[k2].0 as int] < emit_ord[g.edges[k2].1 as int] by {
                        let uu = g.edges[k2].0 as int;
                        let ww = g.edges[k2].1 as int;
                        if ww == v as int {
                            assert(preds_done(*g, done0, v));
                            assert(done0[uu]);
                            assert(uu != v as int);
                            assert(emit_ord[uu] <= done_set(done0).len());
                        } else {
                            assert(done0[ww]);
                            assert(edge_stage_ok(*g, done0, st0, hist, tiny0, si as int, k2));
                            assert(done0[g.edges[k2].0 as int]);
                            assert(g.edges[k2].0 as int != v as int);
                        }
                    }
                }
                if info.is_standalone {
                    proof {
                        // No standalone of this colour is in this layer yet.
                        assert(g.infos[v as int].color < g.n);
                        assert(!flag@[info.color as int]);
                        assert(!standalone_at(*g, done0, st@, si as int, info.color as int));
                    }
                    flag[info.color as usize] = true;
                }
                // Record micro-graph edges from same-layer predecessors.
                let ghost st_now = st@;
                let ghost pre = digraph_edges(tiny);
                let mut k: usize = 0;
                while k < g.edges.len()
                    invariant
                        g.wf(),
                        n == g.n,
                        (v as int) < n,
                        k <= g.edges.len(),
                        st@ == st_now,
                        st@.len() == n,
                        ev == enc_info(g.infos[v as int]),
                        st@[v as int] == si,
                        pre.subset_of(digraph_edges(tiny)),
                        acyclic(digraph_edges(tiny)),
                        no_self_pairs(digraph_edges(tiny)),
                        forall|y: u64|
                            reaches(digraph_edges(tiny), ev, y) == reaches(pre, ev, y),
                        no_path_to_preds(*g, pre, v, g.edges.len() as int),
                        recorded_upto(*g, digraph_edges(tiny), st@, si as int, v, k as int),
                    decreases g.edges.len() - k,
                {
                    let (u, w) = g.edges[k];
                    if w == v {
                        if st[u] == si {
                            let eu = enc_of(g.infos[u]);
                            if eu != ev {
                                proof {
                                    assert(!reaches(pre, ev, eu));
                                    assert(!reaches(digraph_edges(tiny), ev, eu));
                                    lemma_acyclic_insert(digraph_edges(tiny), eu, ev);
                                }
                                let ghost before = digraph_edges(tiny);
                                digraph_add_edge(&mut tiny, eu, ev);
                                proof {
                                    assert forall|y: u64|
                                        reaches(digraph_edges(tiny), ev, y) == reaches(
                                        pre,
                                        ev,
                                        y,
                                    ) by {
                                        lemma_reaches_insert_into(before, eu, ev, y);
                                    }
                                }
                            }
                        }
                    }
                    k += 1;
                }
                // Push children whose last unemitted predecessor was `v`.
                proof {
                    assert forall|i: int| 0 <= i < heap@.len() implies preds_done(
                        *g,
                        done0,
                        #[trigger] heap@[i],
                    ) by {
                        assert(heap@[i] == heap_pre[i]);
                        assert(ready_node(*g, done0, heap_pre[i]));
                    }
                    assert forall|i: int| 0 <= i < heap@.len() implies ready_node(
                        *g,
                        done@,
                        #[trigger] heap@[i],
                    ) by {
                        assert(heap@[i] == heap_pre[i]);
                        assert(ready_node(*g, done0, heap_pre[i]));
                        assert(heap@[i] != v);
                        assert forall|k2: int|
                            0 <= k2 < g.edges.len() && (#[trigger] g.edges[k2]).1 == heap@[i]
                                implies done@[g.edges[k2].0 as int] by {
                            assert(done0[g.edges[k2].0 as int]);
                        }
                    }
                    assert forall|i: int| 0 <= i < next@.len() implies preds_done(
                        *g,
                        done0,
                        #[trigger] next@[i],
                    ) && ready_node(*g, done@, next@[i]) by {
                        assert(ready_node(*g, done0, next@[i]));
                        assert(next@[i] != v) by {
                            if next@[i] == v {
                                assert(heap_pre[heap_pre.len() - 1] == v);
                            }
                        }
                        assert forall|k2: int|
                            0 <= k2 < g.edges.len() && (#[trigger] g.edges[k2]).1 == next@[i]
                                implies done@[g.edges[k2].0 as int] by {
                            assert(done0[g.edges[k2].0 as int]);
                        }
                    }
                    assert(was_ready(*g, done0, next@));
                    assert forall|x: usize| #[trigger]
                        live_or_child(*g, done@, heap@, next@, v, 0, x) by {
                        if (x as int) < g.n && !done@[x as int] && !heap@.contains(x)
                            && !next@.contains(x) {
                            assert(x != v);
                            assert(!heap_pre.contains(x)) by {
                                if heap_pre.contains(x) {
                                    let i = choose|i: int|
                                        0 <= i < heap_pre.len() && heap_pre[i] == x;
                                    if i < heap_pre.len() - 1 {
                                        assert(heap@[i] == x);
                                    }
                                }
                            }
                            assert(node_live(*g, done0, heap_pre, next@, x));
                            let k0 = choose|k0: int|
                                0 <= k0 < g.edges.len() && (#[trigger] g.edges[k0]).1 == x
                                    && !done0[g.edges[k0].0 as int];
                            if g.edges[k0].0 == v {
                                assert(g.edges[k0] == (v, x));
                            } else {
                                assert(!done@[g.edges[k0].0 as int]);
                            }
                        }
                    }
                }
                let mut k: usize = 0;
                while k < g.edges.len()
                    invariant
                        g.wf(),
                        n == g.n,
                        (v as int) < n,
                        k <= g.edges.len(),
                        done@.len() == n,
                        done@[v as int],
                        worklist_ok(*g, done@, heap@),
                        worklist_ok(*g, done@, next@),
                        distinct_seq(heap@),
                        distinct_seq(next@),
                        disjoint_seqs(heap@, next@),
                        forall|i: int|
                            0 <= i < heap@.len() ==> preds_done(*g, done0, #[trigger] heap@[i])
                                || (exists|j: int|
                                0 <= j < k && #[trigger] g.edges[j] == (v, heap@[i])),
                        was_ready(*g, done0, next@),
                        forall|x: usize| #[trigger] live_or_child(*g, done@, heap@, next@, v, k as int, x),
                        !done0[v as int],
                        forall|w: int| 0 <= w < n && w != v ==> done@[w] == done0[w],
                    decreases g.edges.len() - k,
                {
                    let ghost heap_c = heap@;
                    let (u, w) = g.edges[k];
                    proof {
                        assert(g.edges[k as int] == (u, w));
                    }
                    if u == v && !done[w] {
                        let mut all_done = true;
                        let mut j: usize = 0;
                        while j < g.edges.len()
                            invariant
                                g.wf(),
                                j <= g.edges.len(),
                                (w as int) < g.n,
                                done@.len() == g.n,
                                all_done ==> forall|i: int|
                                    0 <= i < j && (#[trigger] g.edges[i]).1 == w
                                        ==> done@[g.edges[i].0 as int],
                                !all_done ==> exists|i: int|
                                    0 <= i < g.edges.len() && (#[trigger] g.edges[i]).1 == w
                                        && !done@[g.edges[i].0 as int],
                            decreases g.edges.len() - j,
                        {
                            if g.edges[j].1 == w && !done[g.edges[j].0] {
                                all_done = false;
                            }
                            j += 1;
                        }
                        if all_done {
                            proof {
                                // `w` was not yet queued: its predecessor `v`
                                // was unemitted when the worklists were built.
                                assert(!preds_done(*g, done0, w));
                                assert(!heap@.contains(w)) by {
                                    if heap@.contains(w) {
                                        let i = choose|i: int|
                                            0 <= i < heap@.len() && heap@[i] == w;
                                        assert(preds_done(*g, done0, heap@[i]) || (exists|j2: int|
                                            0 <= j2 < k && #[trigger] g.edges[j2] == (
                                            v,
                                            heap@[i],
                                        )));
                                        if exists|j2: int|
                                            0 <= j2 < k && #[trigger] g.edges[j2] == (v, w) {
                                            let j2 = choose|j2: int|
                                                0 <= j2 < k && #[trigger] g.edges[j2] == (v, w);
                                            assert(g.edges[j2] == g.edges[k as int]);
                                        }
                                    }
                                }
                                assert(!next@.contains(w)) by {
                                    if next@.contains(w) {
                                        let i = choose|i: int|
                                            0 <= i < next@.len() && next@[i] == w;
                                        assert(preds_done(*g, done0, next@[i]));
                                    }
                                }
                                assert(ready_node(*g, done@, w));
                            }
                            heap.push(w);
                            proof {
                                assert(heap@[heap@.len() - 1] == w);
                                assert forall|i: int| 0 <= i < heap@.len() implies ready_node(
                                    *g,
                                    done@,
                                    #[trigger] heap@[i],
                                ) by {
                                    if i < heap@.len() - 1 {
                                        assert(heap@[i] == heap_c[i]);
                                    }
                                }
                                assert forall|i: int, j2: int|
                                    0 <= i < j2 < heap@.len() implies heap@[i] != heap@[j2] by {
                                    assert(heap@[i] == heap_c[i]);
                                    if j2 < heap@.len() - 1 {
                                        assert(heap@[j2] == heap_c[j2]);
                                    } else {
                                        assert(heap_c[i] != w) by {
                                            if heap_c[i] == w {
                                                assert(heap_c.contains(w));
                                            }
                                        }
                                    }
                                }
                                assert forall|i: int, j2: int|
                                    0 <= i < heap@.len() && 0 <= j2 < next@.len() implies heap@[i]
                                    != next@[j2] by {
                                    if i < heap@.len() - 1 {
                                        assert(heap@[i] == heap_c[i]);
                                    } else {
                                        assert(heap@[i] == w);
                                        if next@[j2] == w {
                                            assert(next@.contains(w));
                                        }
                                    }
                                }
                                assert forall|i: int|
                                    0 <= i < heap@.len() implies preds_done(
                                    *g,
                                    done0,
                                    #[trigger] heap@[i],
                                ) || (exists|j2: int|
                                    0 <= j2 < k + 1 && #[trigger] g.edges[j2] == (
                                    v,
                                    heap@[i],
                                )) by {
                                    if i < heap@.len() - 1 {
                                        assert(heap@[i] == heap_c[i]);
                                    } else {
                                        assert(g.edges[k as int] == (v, heap@[i]));
                                    }
                                }
                                assert forall|x: usize| #[trigger]
                                    live_or_child(*g, done@, heap@, next@, v, k as int + 1, x) by {
                                    if (x as int) < g.n && !done@[x as int] && !heap@.contains(x)
                                        && !next@.contains(x) {
                                        assert(!heap_c.contains(x)) by {
                                            if heap_c.contains(x) {
                                                let i = choose|i: int|
                                                    0 <= i < heap_c.len() && heap_c[i] == x;
                                                assert(heap@[i] == x);
                                            }
                                        }
                                        assert(live_or_child(*g, done@, heap_c, next@, v, k as int, x));
                                        if exists|j2: int|
                                            k <= j2 < g.edges.len() && #[trigger] g.edges[j2] == (
                                            v,
                                            x,
                                        ) {
                                            let j2 = choose|j2: int|
                                                k <= j2 < g.edges.len() && #[trigger] g.edges[j2]
                                                    == (v, x);
                                            if j2 == k {
                                                assert(x == w);
                                                assert(heap@.contains(w));
                                                assert(false);
                                            }
                                        }
                                    }
                                }
                            }
                        } else {
                            proof {
                                assert forall|x: usize| #[trigger]
                                    live_or_child(*g, done@, heap@, next@, v, k as int + 1, x) by {
                                    if (x as int) < g.n && !done@[x as int] && !heap@.contains(x)
                                        && !next@.contains(x) {
                                        assert(live_or_child(*g, done@, heap@, next@, v, k as int, x));
                                        if exists|j2: int|
                                            k <= j2 < g.edges.len() && #[trigger] g.edges[j2] == (
                                            v,
                                            x,
                                        ) {
                                            let j2 = choose|j2: int|
                                                k <= j2 < g.edges.len() && #[trigger] g.edges[j2]
                                                    == (v, x);
                                            if j2 == k {
                                                assert(x == w);
                                            }
                                        }
                                    }
                                }
                            }
                        }
                    } else {
                        proof {
                            assert forall|x: usize| #[trigger]
                                live_or_child(*g, done@, heap@, next@, v, k as int + 1, x) by {
                                if (x as int) < g.n && !done@[x as int] && !heap@.contains(x)
                                    && !next@.contains(x) {
                                    assert(live_or_child(*g, done@, heap@, next@, v, k as int, x));
                                    if exists|j2: int|
                                        k <= j2 < g.edges.len() && #[trigger] g.edges[j2] == (
                                        v,
                                        x,
                                    ) {
                                        let j2 = choose|j2: int|
                                            k <= j2 < g.edges.len() && #[trigger] g.edges[j2] == (
                                            v,
                                            x,
                                        );
                                        if j2 == k {
                                            assert(x == w);
                                            assert(u == v && done@[x as int]);
                                        }
                                    }
                                }
                            }
                        }
                    }
                    k += 1;
                }
                proof {
                    assert forall|x: usize| #[trigger]
                        node_live(*g, done@, heap@, next@, x) by {
                        assert(live_or_child(*g, done@, heap@, next@, v, g.edges.len() as int, x));
                    }
                    lemma_done_set_finite(done@);
                    assert forall|k2: int| 0 <= k2 < g.edges.len() implies #[trigger] edge_stage_ok(
                        *g,
                        done@,
                        st@,
                        hist,
                        digraph_edges(tiny),
                        si as int,
                        k2,
                    ) by {
                        let uu = g.edges[k2].0 as int;
                        let vv = g.edges[k2].1 as int;
                        assert(edge_stage_ok(*g, done0, st0, hist, tiny0, si as int, k2));
                        if vv == v as int {
                            assert(preds_done(*g, done0, v));
                            assert(done0[uu]);
                            assert(uu != v as int);
                            assert(st@[uu] == st0[uu]);
                            assert(st@[uu] <= si);
                            if st@[uu] == st@[vv] && enc_info(g.infos[uu]) != enc_info(
                                g.infos[vv],
                            ) {
                                assert(recorded_upto(
                                    *g,
                                    digraph_edges(tiny),
                                    st@,
                                    si as int,
                                    v,
                                    g.edges.len() as int,
                                ));
                                assert(digraph_edges(tiny).contains(
                                    (enc_info(g.infos[uu]), enc_info(g.infos[vv])),
                                ));
                            }
                        } else {
                            if done@[vv] {
                                assert(done0[vv]);
                                assert(done0[uu]);
                                assert(uu != v as int);
                                assert(st@[uu] == st0[uu] && st@[vv] == st0[vv]);
                                if st@[uu] == st@[vv] && enc_info(g.infos[uu]) != enc_info(
                                    g.infos[vv],
                                ) && st0[vv] == si {
                                    assert(tiny0.contains(
                                        (enc_info(g.infos[uu]), enc_info(g.infos[vv])),
                                    ));
                                    assert(tiny0.subset_of(digraph_edges(tiny)));
                                }
                            }
                        }
                    }
                }
            }
        }
        // Seal the layer: snapshot the micro-graph, clear it, advance.
        let ghost sealed = digraph_edges(tiny);
        let ghost hist_old = hist;
        proof {
            assert(done_set(done@).len() > done_set(done0_outer).len()) by {
                if done@ == done0_outer {
                    assert(heap@ == h0);
                }
            }
            lemma_done_set_finite(done@);
            assert(si < n);
            hist = hist.push(sealed);
            assert(hist_ok(hist)) by {
                assert forall|s2: int| 0 <= s2 < hist.len() implies acyclic(
                    #[trigger] hist[s2],
                ) && no_self_pairs(hist[s2]) by {
                    if s2 < hist.len() - 1 {
                        assert(hist[s2] == hist_old[s2]);
                    } else {
                        assert(hist[s2] == sealed);
                    }
                }
            }
        }
        digraph_clear(&mut tiny);
        si += 1;
        proof {
            assert forall|k2: int| 0 <= k2 < g.edges.len() implies #[trigger] edge_stage_ok(
                *g,
                done@,
                st@,
                hist,
                digraph_edges(tiny),
                si as int,
                k2,
            ) by {
                assert(edge_stage_ok(*g, done@, st@, hist_old, sealed, si - 1, k2));
                let uu = g.edges[k2].0 as int;
                let vv = g.edges[k2].1 as int;
                if done@[vv] {
                    if st@[uu] == st@[vv] && enc_info(g.infos[uu]) != enc_info(g.infos[vv]) {
                        if (st@[vv] as int) < si - 1 {
                            assert(hist[st@[vv] as int] == hist_old[st@[vv] as int]);
                        } else {
                            assert(hist[st@[vv] as int] == sealed);
                        }
                    }
                }
            }
        }
        let mut c: usize = 0;
        while c < n
            invariant
                flag@.len() == n,
                c <= n,
                forall|i: int| 0 <= i < c ==> !(#[trigger] flag@[i]),
            decreases n - c,
        {
            flag[c] = false;
            c += 1;
        }
        let ghost nx_old = next@;
        let ghost h_old = heap@;
        heap = next;
        next = Vec::new();
        proof {
            assert forall|x: usize| #[trigger] node_live(*g, done@, heap@, next@, x) by {
                if (x as int) < g.n && !done@[x as int] && !heap@.contains(x) && !next@.contains(
                    x,
                ) {
                    assert(node_live(*g, done@, h_old, nx_old, x));
                }
            }
        }
    }

    // Every node emitted: package the assignment.  Otherwise the stranded
    // nodes witness a dependency cycle.
    let mut all = true;
    let mut w: usize = 0;
    while w < n
        invariant
            done@.len() == n,
            w <= n,
            all ==> forall|i: int| 0 <= i < w ==> done@[i],
            !all ==> exists|i: int| 0 <= i < n && !done@[i],
        decreases n - w,
    {
        if !done[w] {
            all = false;
        }
        w += 1;
    }
    if all {
        proof {
            assert forall|v2: int| 0 <= v2 < n implies (#[trigger] st@[v2] as int) < si by {
                assert(done@[v2]);
            }
            assert forall|k2: int| 0 <= k2 < g.edges.len() implies {
                let uu = (#[trigger] g.edges[k2]).0 as int;
                let vv = g.edges[k2].1 as int;
                &&& st@[uu] <= st@[vv]
                &&& (st@[uu] == st@[vv] && enc_info(g.infos[uu]) != enc_info(g.infos[vv])
                    ==> hist[st@[vv] as int].contains(
                    (enc_info(g.infos[uu]), enc_info(g.infos[vv])),
                ))
            } by {
                assert(edge_stage_ok(
                    *g,
                    done@,
                    st@,
                    hist,
                    digraph_edges(tiny),
                    si as int,
                    k2,
                ));
                let vv = g.edges[k2].1 as int;
                assert(done@[vv]);
                assert((st@[vv] as int) < si);
            }
            assert(standalone_unique(*g, Seq::new(g.n as nat, |i: int| true), st@)) by {
                assert forall|a: int, b: int|
                    0 <= a < g.n && 0 <= b < g.n && a != b && (#[trigger] g.infos[a]).is_standalone
                        && (#[trigger] g.infos[b]).is_standalone && g.infos[a].color
                        == g.infos[b].color implies st@[a] != st@[b] by {
                    assert(done@[a] && done@[b]);
                }
            }
        }
        proof {
            let rank = |x: usize| emit_ord[x as int];
            assert forall|a: usize, b: usize| #[trigger]
                g.edge_set().contains((a, b)) implies rank(a) < rank(b) by {
                let k = choose|k: int| 0 <= k < g.edges@.len() && g.edges@[k] == (a, b);
                assert(done@[g.edges[k].1 as int]);
            }
            lemma_rank_acyclic(g.edge_set(), rank);
        }
        Ok(StageAssign { stage_of: st, num_stages: si, tiny: Ghost(hist) })
    } else {
        proof {
            let stuck = Set::<usize>::new(|x: usize| (x as int) < n && !done@[x as int]);
            let base = vstd::set_lib::set_int_range(0, n as int).map(|i: int| i as usize);
            vstd::set_lib::lemma_int_range(0, n as int);
            vstd::set_lib::set_int_range(0, n as int).lemma_map_finite(|i: int| i as usize);
            assert(stuck.subset_of(base)) by {
                assert forall|x: usize| stuck.contains(x) implies base.contains(x) by {
                    assert(vstd::set_lib::set_int_range(0, n as int).contains(x as int));
                    assert(base.contains((x as int) as usize));
                }
            }
            vstd::set_lib::lemma_set_subset_finite(base, stuck);
            let i0 = choose|i: int| 0 <= i < n && !done@[i];
            assert(stuck.contains(i0 as usize));
            assert(stuck.len() > 0) by {
                if stuck.len() == 0 {
                    stuck.lemma_len0_is_empty();
                }
            }
            assert forall|x: usize| stuck.contains(x) implies exists|u: usize|
                stuck.contains(u) && g.edge_set().contains((u, x)) by {
                assert(node_live(*g, done@, heap@, next@, x));
                let k = choose|k: int|
                    0 <= k < g.edges.len() && (#[trigger] g.edges[k]).1 == x
                        && !done@[g.edges[k].0 as int];
                let u = g.edges[k].0;
                assert(g.edges@.contains(g.edges[k]));
                assert(g.edge_set().contains((u, x)));
                assert(stuck.contains(u));
            }
            lemma_stuck_set_has_cycle(g.edge_set(), stuck);
        }
        Err(SchedulerError::ScheduleCycle)
    }
}


/// One submission cluster: a non-empty set of same-identity systems in one
/// layer, or a single standalone system.
pub struct Cluster {
    pub info: NodeInfo,
    pub nodes: Vec<usize>,
    pub stage: usize,
}

/// The clustered graph: clusters, the node-to-cluster map, the
/// inter-cluster edges, and the ghost layer certificate.
pub struct Clustering {
    pub clusters: Vec<Cluster>,
    pub cluster_of: Vec<usize>,
    pub edges: Vec<(usize, usize)>,
    pub num_stages: usize,
    pub tiny: Ghost<Seq<Set<(u64, u64)>>>,
}

pub open spec fn node_cluster_ok(g: RenderGraph, c: Clustering, v: int) -> bool {
    &&& (c.cluster_of[v] as int) < c.clusters.len()
    &&& c.clusters[c.cluster_of[v] as int].info == g.infos[v]
    &&& c.clusters[c.cluster_of[v] as int].nodes@.contains(v as usize)
}

pub open spec fn cluster_wf(g: RenderGraph, c: Clustering, j: int) -> bool {
    let cl = c.clusters[j];
    &&& cl.nodes.len() >= 1
    &&& (cl.stage as int) < c.num_stages
    &&& forall|i: int|
        0 <= i < cl.nodes.len() ==> ((#[trigger] cl.nodes[i] as int) < g.n && (c.cluster_of[cl.nodes[i] as int] as int) == j)
    &&& (cl.info.is_standalone ==> cl.nodes.len() == 1)
}

/// A user edge between different clusters appears in the cluster graph.
pub open spec fn edge_mapped(g: RenderGraph, c: Clustering, k: int) -> bool {
    let u = g.edges[k].0 as int;
    let v = g.edges[k].1 as int;
    c.cluster_of[u] != c.cluster_of[v] ==> c.edges@.contains((c.cluster_of[u], c.cluster_of[v]))
}

/// A cluster edge runs between distinct clusters, is witnessed by a user
/// edge, never decreases the layer, and a same-layer edge is recorded in
/// that layer's micro-graph.
pub open spec fn cedge_ok(g: RenderGraph, c: Clustering, e: (usize, usize)) -> bool {
    let a = e.0 as int;
    let b = e.1 as int;
    &&& a < c.clusters.len()
    &&& b < c.clusters.len()
    &&& a != b
    &&& exists|k: int|
        0 <= k < g.edges.len() && (c.cluster_of[(#[trigger] g.edges[k]).0 as int] as int) == a
            && (c.cluster_of[g.edges[k].1 as int] as int) == b
    &&& c.clusters[a].stage <= c.clusters[b].stage
    &&& (c.clusters[a].stage == c.clusters[b].stage ==> enc_info(c.clusters[a].info) != enc_info(
        c.clusters[b].info,
    ) && c.tiny@[c.clusters[b].stage as int].contains(
        (enc_info(c.clusters[a].info), enc_info(c.clusters[b].info)),
    ))
}

pub open spec fn valid_clustering(g: RenderGraph, c: Clustering) -> bool {
    &&& c.cluster_of.len() == g.n
    &&& c.clusters.len() <= g.n
    &&& c.tiny@.len() == c.num_stages
    &&& hist_ok(c.tiny@)
    &&& forall|v: int| 0 <= v < g.n ==> #[trigger] node_cluster_ok(g, c, v)
    &&& forall|j: int| 0 <= j < c.clusters.len() ==> #[trigger] cluster_wf(g, c, j)
    &&& forall|j1: int, j2: int|
        0 <= j1 < j2 < c.clusters.len() ==> ((#[trigger] c.clusters[j1]).stage
            != (#[trigger] c.clusters[j2]).stage || c.clusters[j1].info != c.clusters[j2].info)
    &&& forall|k: int| 0 <= k < g.edges.len() ==> #[trigger] edge_mapped(g, c, k)
    &&& forall|i: int| 0 <= i < c.edges.len() ==> cedge_ok(g, c, #[trigger] c.edges[i])
    &&& distinct_seq(c.edges@)
}

/// Groups the layered systems into clusters keyed by (layer, identity) and
/// derives the inter-cluster edges.
pub fn build_clusters(g: &RenderGraph, a: StageAssign) -> (c: Clustering)
    requires
        g.wf(),
        stages_ok(*g, a),
    ensures
        valid_clustering(*g, c),
        c.num_stages == a.num_stages,
        forall|v: int|
            0 <= v < g.n ==> c.clusters[c.cluster_of[v] as int].stage == a.stage_of[v],
{
    let n = g.n;
    let mut keys_stage: Vec<usize> = Vec::new();
    let mut keys_info: Vec<NodeInfo> = Vec::new();
    let mut reps: Vec<usize> = Vec::new();
    let mut cluster_of: Vec<usize> = Vec::new();
    let mut v: usize = 0;
    while v < n
        invariant
            g.wf(),
            stages_ok(*g, a),
            n == g.n,
            v <= n,
            cluster_of.len() == v,
            keys_stage.len() <= v,
            keys_stage.len() == keys_info.len(),
            forall|i: int|
                0 <= i < v ==> ((#[trigger] cluster_of[i] as int) < keys_stage.len()
                    && keys_info[cluster_of[i] as int] == g.infos[i] && keys_stage[cluster_of[i] as int]
                    == a.stage_of[i]),
            reps.len() == keys_stage.len(),
            forall|j: int|
                0 <= j < reps.len() ==> ((#[trigger] reps[j] as int) < v
                    && (cluster_of[reps[j] as int] as int) == j),
            forall|j1: int, j2: int|
                0 <= j1 < j2 < keys_stage.len() ==> ((#[trigger] keys_stage[j1])
                    != (#[trigger] keys_stage[j2]) || keys_info[j1] != keys_info[j2]),
        decreases n - v,
    {
        let sv = a.stage_of[v];
        let iv = g.infos[v];
        let mut found = false;
        let mut idx: usize = 0;
        let mut j: usize = 0;
        while j < keys_stage.len()
            invariant
                keys_stage.len() == keys_info.len(),
                j <= keys_stage.len(),
                !found ==> forall|i: int|
                    0 <= i < j ==> ((#[trigger] keys_stage[i]) != sv || keys_info[i] != iv),
                found ==> (idx as int) < keys_stage.len() && keys_stage[idx as int] == sv
                    && keys_info[idx as int] == iv,
            decreases keys_stage.len() - j,
        {
            if keys_stage[j] == sv && keys_info[j] == iv {
                found = true;
                idx = j;
            }
            j += 1;
        }
        if found {
            cluster_of.push(idx);
        } else {
            cluster_of.push(keys_stage.len());
            keys_stage.push(sv);
            keys_info.push(iv);
            reps.push(v);
        }
        v += 1;
    }
    // Collect each cluster's members.
    let ghost co = cluster_of@;
    let mut clusters: Vec<Cluster> = Vec::new();
    let mut j: usize = 0;
    while j < keys_stage.len()
        invariant
            g.wf(),
            stages_ok(*g, a),
            n == g.n,
            cluster_of@ == co,
            cluster_of.len() == n,
            keys_stage.len() <= n,
            keys_stage.len() == keys_info.len(),
            clusters.len() == j,
            j <= keys_stage.len(),
            forall|i: int|
                0 <= i < n ==> ((#[trigger] cluster_of[i] as int) < keys_stage.len()
                    && keys_info[cluster_of[i] as int] == g.infos[i] && keys_stage[cluster_of[i] as int]
                    == a.stage_of[i]),
            reps.len() == keys_stage.len(),
            forall|j2: int|
                0 <= j2 < reps.len() ==> ((#[trigger] reps[j2] as int) < n
                    && (cluster_of[reps[j2] as int] as int) == j2),
            forall|j1: int, j2: int|
                0 <= j1 < j2 < keys_stage.len() ==> ((#[trigger] keys_stage[j1])
                    != (#[trigger] keys_stage[j2]) || keys_info[j1] != keys_info[j2]),
            forall|jj: int|
                0 <= jj < j ==> {
                    let cl = #[trigger] clusters[jj];
                    &&& cl.info == keys_info[jj]
                    &&& cl.stage == keys_stage[jj]
                    &&& cl.nodes.len() >= 1
                    &&& (cl.info.is_standalone ==> cl.nodes.len() == 1)
                    &&& forall|i: int|
                        0 <= i < cl.nodes.len() ==> ((#[trigger] cl.nodes[i] as int) < n
                            && (cluster_of[cl.nodes[i] as int] as int) == jj)
                },
            forall|jj: int, x: int|
                0 <= jj < j && 0 <= x < n && (cluster_of[x] as int) == jj
                    ==> (#[trigger] clusters[jj].nodes@.contains(x as usize)),
        decreases keys_stage.len() - j,
    {
        let mut nodes: Vec<usize> = Vec::new();
        let mut x: usize = 0;
        while x < n
            invariant
                cluster_of.len() == n,
                (j as int) < keys_stage.len(),
                x <= n,
                forall|i: int|
                    0 <= i < nodes.len() ==> ((#[trigger] nodes[i] as int) < x
                        && (cluster_of[nodes[i] as int] as int) == j as int),
                forall|y: int|
                    0 <= y < x && (cluster_of[y] as int) == j as int ==> nodes@.contains(
                        y as usize,
                    ),
                forall|i1: int, i2: int|
                    0 <= i1 < i2 < nodes.len() ==> nodes[i1] < nodes[i2],
            decreases n - x,
        {
            let ghost nodes_before = nodes@;
            if cluster_of[x] == j {
                nodes.push(x);
            }
            proof {
                assert forall|y: int|
                    0 <= y < x + 1 && (cluster_of[y] as int) == j as int implies nodes@.contains(
                        y as usize,
                    ) by {
                    if y < x {
                        let i = choose|i: int|
                            0 <= i < nodes_before.len() && nodes_before[i] == y as usize;
                        assert(nodes@[i] == y as usize);
                    } else {
                        assert(nodes@[nodes@.len() - 1] == x);
                    }
                }
            }
            x += 1;
        }
        proof {
            // Occupancy: the key's representative node maps to it.
            let i0 = reps[j as int];
            assert(nodes@.contains(i0));
            assert(nodes.len() >= 1);
            // A standalone cluster holds exactly one system.
            if keys_info[j as int].is_standalone && nodes.len() >= 2 {
                let x1 = nodes[0];
                let x2 = nodes[1];
                assert(x1 != x2);
                assert(g.infos[x1 as int] == keys_info[j as int]);
                assert(g.infos[x2 as int] == keys_info[j as int]);
                assert(a.stage_of[x1 as int] == keys_stage[j as int]);
                assert(a.stage_of[x2 as int] == keys_stage[j as int]);
                assert(Seq::new(g.n as nat, |i: int| true)[x1 as int]);
                assert(false);
            }
        }
        clusters.push(
            Cluster { info: keys_info[j], nodes, stage: keys_stage[j] },
        );
        j += 1;
    }
    // Derive the inter-cluster edges.
    let ghost cls = clusters@;
    let mut ce: Vec<(usize, usize)> = Vec::new();
    let mut k: usize = 0;
    while k < g.edges.len()
        invariant
            g.wf(),
            stages_ok(*g, a),
            n == g.n,
            clusters@ == cls,
            cluster_of@ == co,
            cluster_of.len() == n,
            clusters.len() == keys_stage.len(),
            keys_stage.len() <= n,
            keys_stage.len() == keys_info.len(),
            reps.len() == keys_stage.len(),
            forall|j2: int|
                0 <= j2 < reps.len() ==> ((#[trigger] reps[j2] as int) < n
                    && (cluster_of[reps[j2] as int] as int) == j2),
            k <= g.edges.len(),
            forall|i: int|
                0 <= i < n ==> ((#[trigger] cluster_of[i] as int) < clusters.len()
                    && keys_info[cluster_of[i] as int] == g.infos[i] && keys_stage[cluster_of[i] as int]
                    == a.stage_of[i]),
            forall|jj: int|
                0 <= jj < clusters.len() ==> ((#[trigger] clusters[jj]).info
                    == keys_info[jj] && clusters[jj].stage == keys_stage[jj]),
            forall|j1: int, j2: int|
                0 <= j1 < j2 < keys_stage.len() ==> ((#[trigger] keys_stage[j1])
                    != (#[trigger] keys_stage[j2]) || keys_info[j1] != keys_info[j2]),
            forall|i: int|
                0 <= i < k ==> {
                    let u = (#[trigger] g.edges[i]).0 as int;
                    let w = g.edges[i].1 as int;
                    cluster_of[u] != cluster_of[w] ==> ce@.contains(
                        (cluster_of[u], cluster_of[w]),
                    )
                },
            forall|i: int|
                0 <= i < ce.len() ==> {
                    let e = #[trigger] ce[i];
                    let aa = e.0 as int;
                    let bb = e.1 as int;
                    &&& aa < clusters.len()
                    &&& bb < clusters.len()
                    &&& aa != bb
                    &&& exists|k2: int|
                        0 <= k2 < g.edges.len() && (cluster_of[(#[trigger] g.edges[k2]).0 as int] as int)
                            == aa && (cluster_of[g.edges[k2].1 as int] as int) == bb
                    &&& clusters[aa].stage <= clusters[bb].stage
                    &&& (clusters[aa].stage == clusters[bb].stage ==> enc_info(clusters[aa].info)
                        != enc_info(clusters[bb].info) && a.tiny@[clusters[bb].stage as int].contains(
                        (enc_info(clusters[aa].info), enc_info(clusters[bb].info)),
                    ))
                },
            distinct_seq(ce@),
        decreases g.edges.len() - k,
    {
        let (u, w) = g.edges[k];
        proof {
            assert(g.edges[k as int] == (u, w));
        }
        let ca = cluster_of[u];
        let cb = cluster_of[w];
        let ghost ce_before = ce@;
        if ca != cb {
            let mut present = false;
            let mut i: usize = 0;
            while i < ce.len()
                invariant
                    i <= ce.len(),
                    !present ==> forall|i2: int|
                        0 <= i2 < i ==> #[trigger] ce[i2] != (ca, cb),
                    present ==> ce@.contains((ca, cb)),
                decreases ce.len() - i,
            {
                if ce[i].0 == ca && ce[i].1 == cb {
                    proof {
                        assert(ce[i as int] == (ca, cb));
                    }
                    present = true;
                }
                i += 1;
            }
            if !present {
                proof {
                    // The new cluster edge satisfies the layer ordering.
                    assert(a.stage_of[u as int] <= a.stage_of[w as int]);
                    assert(clusters[ca as int].stage == a.stage_of[u as int]);
                    assert(clusters[cb as int].stage == a.stage_of[w as int]);
                    if clusters[ca as int].stage == clusters[cb as int].stage {
                        // Distinct clusters in one layer carry distinct
                        // identities, hence distinct encodings.
                        assert(keys_info[ca as int] != keys_info[cb as int]);
                        assert(clusters[ca as int].info == g.infos[u as int]);
                        assert(clusters[cb as int].info == g.infos[w as int]);
                        if enc_info(clusters[ca as int].info) == enc_info(
                            clusters[cb as int].info,
                        ) {
                            lemma_enc_injective(
                                clusters[ca as int].info,
                                clusters[cb as int].info,
                            );
                        }
                    }
                }
                ce.push((ca, cb));
            }
        }
        proof {
            assert forall|i: int|
                0 <= i < k + 1 implies {
                let uu = (#[trigger] g.edges[i]).0 as int;
                let ww = g.edges[i].1 as int;
                cluster_of[uu] != cluster_of[ww] ==> ce@.contains(
                    (cluster_of[uu], cluster_of[ww]),
                )
            } by {
                if i < k {
                    let uu = g.edges[i].0 as int;
                    let ww = g.edges[i].1 as int;
                    if cluster_of[uu] != cluster_of[ww] {
                        let i2 = choose|i2: int|
                            0 <= i2 < ce_before.len() && ce_before[i2] == (
                                cluster_of[uu],
                                cluster_of[ww],
                            );
                        assert(ce@[i2] == (cluster_of[uu], cluster_of[ww]));
                    }
                } else {
                    if ca != cb {
                        if ce@ != ce_before {
                            assert(ce@[ce@.len() - 1] == (ca, cb));
                        }
                    }
                }
            }
        }
        k += 1;
    }
    let c = Clustering {
        clusters,
        cluster_of,
        edges: ce,
        num_stages: a.num_stages,
        tiny: Ghost(a.tiny@),
    };
    proof {
        assert forall|v2: int| 0 <= v2 < g.n implies #[trigger] node_cluster_ok(*g, c, v2) by {
            assert(c.clusters[c.cluster_of[v2] as int].nodes@.contains(v2 as usize));
        }
        assert forall|j2: int| 0 <= j2 < c.clusters.len() implies #[trigger] cluster_wf(
            *g,
            c,
            j2,
        ) by {
            let i0 = reps@[j2] as int;
            assert((cluster_of@[i0] as int) == j2);
            assert((c.clusters[j2].stage as int) < c.num_stages) by {
                assert(keys_stage@[j2] == a.stage_of[i0]);
                assert((a.stage_of[i0] as int) < a.num_stages);
            }
        }
    }
    c
}

/// Collapses a well-formed dependency graph into the cluster DAG.
/// Clustering succeeds exactly when the input has no dependency cycle;
/// otherwise `ScheduleCycle` is reported.
pub fn cluster_render_graph(g: &RenderGraph) -> (r: Result<Clustering, SchedulerError>)
    requires
        g.wf(),
    ensures
        r matches Ok(c) ==> valid_clustering(*g, c),
        r is Ok <==> acyclic(g.edge_set()),
        r is Err ==> r == Result::<Clustering, SchedulerError>::Err(
            SchedulerError::ScheduleCycle,
        ),
{
    match assign_stages(g) {
        Ok(a) => Ok(build_clusters(g, a)),
        Err(e) => Err(e),
    }
}

/// Extracts the per-edge facts for one cluster-graph edge.
proof fn lemma_cedge(g: RenderGraph, c: Clustering, x: usize, y: usize)
    requires
        valid_clustering(g, c),
        c.edges@.to_set().contains((x, y)),
    ensures
        cedge_ok(g, c, (x, y)),
{
    let k = choose|k: int| 0 <= k < c.edges@.len() && c.edges@[k] == (x, y);
    assert(cedge_ok(g, c, c.edges[k]));
}

/// Along a path in the cluster graph the layer never decreases, and every
/// visited cluster index is in range.
proof fn lemma_cpath_stages(g: RenderGraph, c: Clustering, p: Seq<usize>, i: int)
    requires
        valid_clustering(g, c),
        is_path(c.edges@.to_set(), p),
        p.len() >= 2,
        0 <= i < p.len(),
    ensures
        (p[i] as int) < c.clusters.len(),
        c.clusters[p.first() as int].stage <= c.clusters[p[i] as int].stage,
        c.clusters[p[i] as int].stage <= c.clusters[p.last() as int].stage,
    decreases p.len(), (if i == 0 { 1int } else { 0int }),
{
    let ce = c.edges@.to_set();
    lemma_path_edges(ce, p, 0);
    lemma_cedge(g, c, p[0], p[1]);
    if i == 0 {
        lemma_cpath_stages(g, c, p, 1);
    } else {
        if p.len() == 2 {
            assert(p[i] == p.last());
        } else {
            let q = p.drop_first();
            assert(is_path(ce, q));
            lemma_cpath_stages(g, c, q, i - 1);
            assert(q[i - 1] == p[i] && q.first() == p[1] && q.last() == p.last());
        }
    }
}

/// The cluster graph is acyclic: a cycle could not leave its layer, and a
/// one-layer cycle would map to a cycle in that layer's acyclic colour
/// micro-graph.
pub proof fn lemma_clustering_acyclic(g: RenderGraph, c: Clustering)
    requires
        valid_clustering(g, c),
    ensures
        acyclic(c.edges@.to_set()),
{
    let ce = c.edges@.to_set();
    if has_cycle(ce) {
        let p = choose|p: Seq<usize>| is_path(ce, p) && p.len() >= 2 && p.first() == p.last();
        // Every cluster on the cycle sits in the same layer.
        let s = c.clusters[p[0] as int].stage as int;
        assert forall|i: int|
            0 <= i < p.len() implies (p[i] as int) < c.clusters.len() && (c.clusters[
            #[trigger] p[i] as int].stage as int) == s by {
            lemma_cpath_stages(g, c, p, i);
        }
        assert(cluster_wf(g, c, p[0] as int));
        assert(0 <= s < c.tiny@.len());
        // Map the cycle through identity encodings into the layer's
        // micro-graph.
        let q = Seq::new(p.len(), |i: int| enc_info(c.clusters[p[i] as int].info));
        assert forall|i: int| 0 <= i < q.len() - 1 implies c.tiny@[s].contains(
            (#[trigger] q[i], q[i + 1]),
        ) by {
            lemma_path_edges(ce, p, i);
            assert(ce.contains((p[i], p[i + 1])));
            lemma_cedge(g, c, p[i], p[i + 1]);
        }
        lemma_pointwise_path(c.tiny@[s], q);
        assert(is_path(c.tiny@[s], q) && q.len() >= 2 && q.first() == q.last());
        assert(has_cycle(c.tiny@[s]));
        assert(acyclic(c.tiny@[s]));
        assert(false);
    }
}

} // verus!
