//! Directed-graph model shared by the clustering and scheduling passes.
//!
//! A graph is a finite set of integer-identified nodes together with a set
//! of directed edges.  Paths, reachability, cycles and acyclicity are
//! defined here over plain edge sets, so that the same theory serves the
//! user dependency graph, the per-layer colour micro-graph and the cluster
//! graph.

use vstd::prelude::*;

verus! {

/// A non-empty sequence of nodes in which each adjacent pair is an edge.
pub open spec fn is_path<T>(edges: Set<(T, T)>, p: Seq<T>) -> bool
    decreases p.len(),
{
    p.len() >= 1 && (p.len() == 1 || (edges.contains((p[0], p[1])) && is_path(
        edges,
        p.drop_first(),
    )))
}

/// `b` can be reached from `a` along edges (trivially when `a == b`).
pub open spec fn reaches<T>(edges: Set<(T, T)>, a: T, b: T) -> bool {
    exists|p: Seq<T>| is_path(edges, p) && p.first() == a && p.last() == b
}

/// Some node lies on a directed cycle.
pub open spec fn has_cycle<T>(edges: Set<(T, T)>) -> bool {
    exists|p: Seq<T>| is_path(edges, p) && p.len() >= 2 && p.first() == p.last()
}

pub open spec fn acyclic<T>(edges: Set<(T, T)>) -> bool {
    !has_cycle(edges)
}

/// Every adjacent pair of a path is an edge.
pub proof fn lemma_path_edges<T>(edges: Set<(T, T)>, p: Seq<T>, i: int)
    requires
        is_path(edges, p),
        0 <= i < p.len() - 1,
    ensures
        edges.contains((p[i], p[i + 1])),
    decreases p.len(),
{
    if i > 0 {
        lemma_path_edges(edges, p.drop_first(), i - 1);
    }
}

/// A sequence whose adjacent pairs are all edges is a path.
pub proof fn lemma_pointwise_path<T>(edges: Set<(T, T)>, p: Seq<T>)
    requires
        p.len() >= 1,
        forall|i: int| 0 <= i < p.len() - 1 ==> edges.contains((#[trigger] p[i], p[i + 1])),
    ensures
        is_path(edges, p),
    decreases p.len(),
{
    if p.len() > 1 {
        assert(forall|i: int|
            0 <= i < p.drop_first().len() - 1 ==> edges.contains(
                (#[trigger] p.drop_first()[i], p.drop_first()[i + 1]),
            )) by {
            assert(forall|i: int| 0 <= i < p.len() - 1 - 1 ==> p.drop_first()[i] == p[i + 1]);
        }
        lemma_pointwise_path(edges, p.drop_first());
    }
}

/// A path over a subset of edges is a path over the superset.
pub proof fn lemma_path_mono<T>(small: Set<(T, T)>, big: Set<(T, T)>, p: Seq<T>)
    requires
        is_path(small, p),
        small.subset_of(big),
    ensures
        is_path(big, p),
    decreases p.len(),
{
    if p.len() > 1 {
        lemma_path_mono(small, big, p.drop_first());
    }
}

/// Any contiguous, non-empty slice of a path is itself a path.
pub proof fn lemma_path_subrange<T>(edges: Set<(T, T)>, p: Seq<T>, i: int, j: int)
    requires
        is_path(edges, p),
        0 <= i <= j < p.len(),
    ensures
        is_path(edges, p.subrange(i, j + 1)),
{
    let q = p.subrange(i, j + 1);
    assert forall|k: int| 0 <= k < q.len() - 1 implies edges.contains(
        (#[trigger] q[k], q[k + 1]),
    ) by {
        lemma_path_edges(edges, p, i + k);
    }
    lemma_pointwise_path(edges, q);
}

/// Two paths that share an endpoint join into one path.
pub proof fn lemma_path_join<T>(edges: Set<(T, T)>, p: Seq<T>, q: Seq<T>)
    requires
        is_path(edges, p),
        is_path(edges, q),
        p.last() == q.first(),
    ensures
        is_path(edges, p + q.drop_first()),
        (p + q.drop_first()).first() == p.first(),
        (p + q.drop_first()).last() == q.last(),
        (p + q.drop_first()).len() == p.len() + q.len() - 1,
{
    let r = p + q.drop_first();
    assert forall|k: int| 0 <= k < r.len() - 1 implies edges.contains(
        (#[trigger] r[k], r[k + 1]),
    ) by {
        if k < p.len() - 1 {
            lemma_path_edges(edges, p, k);
        } else if k == p.len() - 1 {
            if q.len() >= 2 {
                lemma_path_edges(edges, q, 0);
                assert(r[k] == p.last() && r[k + 1] == q[1]);
            }
        } else {
            lemma_path_edges(edges, q, k - p.len() + 1);
            assert(r[k] == q[k - p.len() + 1] && r[k + 1] == q[k - p.len() + 2]);
        }
    }
    lemma_pointwise_path(edges, r);
    if q.len() >= 2 {
        assert(r.last() == q.drop_first().last());
        assert(q.drop_first().last() == q.last());
    } else {
        assert(r =~= p);
    }
}

/// Reachability is transitive.
pub proof fn lemma_reaches_trans<T>(edges: Set<(T, T)>, a: T, b: T, c: T)
    requires
        reaches(edges, a, b),
        reaches(edges, b, c),
    ensures
        reaches(edges, a, c),
{
    let p = choose|p: Seq<T>| is_path(edges, p) && p.first() == a && p.last() == b;
    let q = choose|q: Seq<T>| is_path(edges, q) && q.first() == b && q.last() == c;
    lemma_path_join(edges, p, q);
}

/// An edge gives one-step reachability.
pub proof fn lemma_edge_reaches<T>(edges: Set<(T, T)>, a: T, b: T)
    requires
        edges.contains((a, b)),
    ensures
        reaches(edges, a, b),
{
    let p = seq![a, b];
    assert(p.drop_first() =~= seq![b]);
    assert(is_path(edges, seq![b]));
    assert(is_path(edges, p) && p.first() == a && p.last() == b);
}

/// Every node reaches itself.
pub proof fn lemma_reaches_refl<T>(edges: Set<(T, T)>, a: T)
    ensures
        reaches(edges, a, a),
{
    let p = seq![a];
    assert(is_path(edges, p) && p.first() == a && p.last() == a);
}

/// With no edges, reachability collapses to equality.
pub proof fn lemma_reaches_empty<T>(a: T, b: T)
    requires
        reaches(Set::<(T, T)>::empty(), a, b),
    ensures
        a == b,
{
    let p = choose|p: Seq<T>|
        is_path(Set::<(T, T)>::empty(), p) && p.first() == a && p.last() == b;
    if p.len() > 1 {
        assert(Set::<(T, T)>::empty().contains((p[0], p[1])));
    }
}

/// The empty edge set is acyclic.
pub proof fn lemma_empty_acyclic<T>()
    ensures
        acyclic(Set::<(T, T)>::empty()),
{
    if has_cycle(Set::<(T, T)>::empty()) {
        let p = choose|p: Seq<T>|
            is_path(Set::<(T, T)>::empty(), p) && p.len() >= 2 && p.first() == p.last();
        assert(Set::<(T, T)>::empty().contains((p[0], p[1])));
    }
}


/// Along a path, a rank that increases across every edge increases from
/// end to end.
proof fn lemma_rank_path<T>(edges: Set<(T, T)>, rank: spec_fn(T) -> int, p: Seq<T>)
    requires
        forall|a: T, b: T| #[trigger] edges.contains((a, b)) ==> rank(a) < rank(b),
        is_path(edges, p),
        p.len() >= 2,
    ensures
        rank(p.first()) < rank(p.last()),
    decreases p.len(),
{
    lemma_path_edges(edges, p, 0);
    if p.len() > 2 {
        lemma_rank_path(edges, rank, p.drop_first());
    }
}

/// An edge set whose edges all increase some rank has no cycle.
pub proof fn lemma_rank_acyclic<T>(edges: Set<(T, T)>, rank: spec_fn(T) -> int)
    requires
        forall|a: T, b: T| #[trigger] edges.contains((a, b)) ==> rank(a) < rank(b),
    ensures
        acyclic(edges),
{
    if has_cycle(edges) {
        let p = choose|p: Seq<T>| is_path(edges, p) && p.len() >= 2 && p.first() == p.last();
        lemma_rank_path(edges, rank, p);
    }
}

/// A path whose start does not reach `x` cannot use an inserted edge
/// `(x, n)`, so it already lives in the original edge set.
proof fn lemma_path_avoids_new_edge<T>(edges: Set<(T, T)>, x: T, n: T, p: Seq<T>)
    requires
        !reaches(edges, p.first(), x),
        is_path(edges.insert((x, n)), p),
    ensures
        is_path(edges, p),
    decreases p.len(),
{
    if p.len() > 1 {
        let e = (p[0], p[1]);
        if e == (x, n) {
            // Then p starts at x, which reaches x trivially: contradiction.
            lemma_reaches_refl(edges, x);
            assert(false);
        }
        assert(edges.contains(e));
        // The tail starts at p[1]; p[1] does not reach x in `edges`
        // (else p.first() would), so recurse on the tail.
        assert(!reaches(edges, p[1], x)) by {
            if reaches(edges, p[1], x) {
                lemma_edge_reaches(edges, p[0], p[1]);
                lemma_reaches_trans(edges, p[0], p[1], x);
            }
        }
        lemma_path_avoids_new_edge(edges, x, n, p.drop_first());
        assert(is_path(edges, p));
    }
}

/// Inserting an edge that points at `n` creates no new paths out of `n`.
pub proof fn lemma_reaches_insert_into<T>(edges: Set<(T, T)>, x: T, n: T, y: T)
    requires
        !reaches(edges, n, x),
    ensures
        reaches(edges.insert((x, n)), n, y) == reaches(edges, n, y),
{
    if reaches(edges.insert((x, n)), n, y) {
        let p = choose|p: Seq<T>|
            is_path(edges.insert((x, n)), p) && p.first() == n && p.last() == y;
        lemma_path_avoids_new_edge(edges, x, n, p);
        assert(reaches(edges, n, y));
    }
    if reaches(edges, n, y) {
        let p = choose|p: Seq<T>| is_path(edges, p) && p.first() == n && p.last() == y;
        lemma_path_mono(edges, edges.insert((x, n)), p);
        assert(reaches(edges.insert((x, n)), n, y));
    }
}

/// Inserting an edge `(a, b)` keeps the graph acyclic as long as `b` did not
/// already reach `a`.
pub proof fn lemma_acyclic_insert<T>(edges: Set<(T, T)>, a: T, b: T)
    requires
        acyclic(edges),
        !reaches(edges, b, a),
    ensures
        acyclic(edges.insert((a, b))),
{
    let big = edges.insert((a, b));
    if has_cycle(big) {
        let p = choose|p: Seq<T>| is_path(big, p) && p.len() >= 2 && p.first() == p.last();
        if forall|i: int| 0 <= i < p.len() - 1 ==> (#[trigger] p[i], p[i + 1]) != (a, b) {
            // The cycle avoids the new edge, so it already lived in `edges`.
            assert forall|i: int| 0 <= i < p.len() - 1 implies edges.contains(
                (#[trigger] p[i], p[i + 1]),
            ) by {
                lemma_path_edges(big, p, i);
            }
            lemma_pointwise_path(edges, p);
            assert(false);
        } else {
            // Rotate the cycle to a path from b around to a, avoiding nothing;
            // that path starts at b, so it lies in `edges`: contradiction.
            let j = choose|j: int| 0 <= j < p.len() - 1 && (#[trigger] p[j], p[j + 1]) == (a, b);
            let front = p.subrange(j + 1, p.len() as int);
            let back = p.subrange(0, j + 1);
            lemma_path_subrange(big, p, j + 1, p.len() as int - 1);
            lemma_path_subrange(big, p, 0, j);
            assert(front.last() == p.last() && back.first() == p.first());
            lemma_path_join(big, front, back);
            let d = front + back.drop_first();
            assert(d.first() == p[j + 1] && d.last() == p[j]);
            assert(p[j + 1] == b && p[j] == a);
            lemma_path_avoids_new_edge(edges, a, b, d);
            assert(reaches(edges, b, a));
        }
    }
}

/// If every member of a non-empty finite set has a predecessor inside the
/// set, the edge set has a cycle.
pub proof fn lemma_stuck_set_has_cycle<T>(edges: Set<(T, T)>, s: Set<T>)
    requires
        s.finite(),
        s.len() > 0,
        forall|v: T| #[trigger] s.contains(v) ==> exists|u: T| s.contains(u) && edges.contains((u, v)),
    ensures
        has_cycle(edges),
{
    let v0 = s.choose();
    let p = grow_pred_path(edges, s, seq![v0], s.len() as int + 1);
    // p has length s.len() + 1 and all members in s: two indices repeat.
    let (i, j) = lemma_pigeonhole(p, s);
    lemma_path_subrange(edges, p, i, j);
    assert(has_cycle(edges)) by {
        let c = p.subrange(i, j + 1);
        assert(is_path(edges, c) && c.len() >= 2 && c.first() == c.last());
    }
}

/// Repeatedly prepend an in-set predecessor until the path has the wanted
/// length.
proof fn grow_pred_path<T>(edges: Set<(T, T)>, s: Set<T>, p: Seq<T>, want: int) -> (r: Seq<T>)
    requires
        p.len() >= 1,
        is_path(edges, p),
        forall|i: int| 0 <= i < p.len() ==> s.contains(#[trigger] p[i]),
        forall|v: T| #[trigger] s.contains(v) ==> exists|u: T| s.contains(u) && edges.contains((u, v)),
        p.len() <= want,
    ensures
        r.len() == want,
        is_path(edges, r),
        forall|i: int| 0 <= i < r.len() ==> s.contains(#[trigger] r[i]),
    decreases want - p.len(),
{
    if p.len() == want {
        p
    } else {
        let h = p.first();
        let u = choose|u: T| s.contains(u) && edges.contains((u, h));
        let q = seq![u] + p;
        assert(q.drop_first() =~= p);
        assert(is_path(edges, q));
        assert(forall|i: int| 1 <= i < q.len() ==> q[i] == p[i - 1]);
        grow_pred_path(edges, s, q, want)
    }
}

/// A sequence longer than the finite set that contains all its elements must
/// repeat somewhere.
proof fn lemma_pigeonhole<T>(p: Seq<T>, s: Set<T>) -> (r: (int, int))
    requires
        s.finite(),
        p.len() > s.len(),
        forall|i: int| 0 <= i < p.len() ==> s.contains(#[trigger] p[i]),
    ensures
        0 <= r.0 < r.1 < p.len(),
        p[r.0] == p[r.1],
    decreases s.len(),
{
    let h = p.first();
    if exists|j: int| 1 <= j < p.len() && p[j] == h {
        let j = choose|j: int| 1 <= j < p.len() && p[j] == h;
        (0, j)
    } else {
        let q = p.drop_first();
        let t = s.remove(h);
        assert(forall|i: int| 0 <= i < q.len() ==> t.contains(#[trigger] q[i])) by {
            assert(forall|i: int| 0 <= i < q.len() ==> q[i] == p[i + 1]);
        }
        assert(s.len() >= 1) by {
            assert(s.contains(h));
        }
        let (i, j) = lemma_pigeonhole(q, t);
        assert(q[i] == p[i + 1] && q[j] == p[j + 1]);
        (i + 1, j + 1)
    }
}

} // verus!
