//! Transitive reduction of the cluster DAG.
//!
//! After clustering, the submission-ordering DAG is reduced: an edge is
//! dropped when another edge out of the same source already reaches the
//! edge's target, so fewer timeline-semaphore waits are wired.  On a DAG
//! this keeps exactly the transitive reduction, and reducing twice changes
//! nothing.

use vstd::prelude::*;
use crate::digraph::{digraph_add_edge, digraph_edges, digraph_has_path, digraph_new};
use crate::graph::{is_path, lemma_path_edges, lemma_path_mono, lemma_pointwise_path, reaches};

verus! {

/// Edges lifted to the micro-graph node type.
pub open spec fn lift_edges(e: Set<(usize, usize)>) -> Set<(u64, u64)> {
    e.map(|p: (usize, usize)| (p.0 as u64, p.1 as u64))
}

/// The edge `(a, b)` is implied by a longer route: some other successor of
/// `a` reaches `b`.
pub open spec fn shortcut(e: Set<(usize, usize)>, a: usize, b: usize) -> bool {
    exists|c: usize| c != b && e.contains((a, c)) && reaches(e, c, b)
}

/// The reduction keeps exactly the edges that no longer route implies.
pub open spec fn reduced_edges(e: Set<(usize, usize)>) -> Set<(usize, usize)> {
    e.filter(|p: (usize, usize)| !shortcut(e, p.0, p.1))
}

proof fn lemma_push_to_set<T>(s: Seq<T>, x: T)
    ensures
        s.push(x).to_set() =~= s.to_set().insert(x),
{
    assert forall|y: T| s.push(x).to_set().contains(y) implies s.to_set().insert(x).contains(
        y,
    ) by {
        let i = choose|i: int| 0 <= i < s.push(x).len() && s.push(x)[i] == y;
        if i < s.len() {
            assert(s[i] == y);
        }
    }
    assert forall|y: T| s.to_set().insert(x).contains(y) implies s.push(x).to_set().contains(
        y,
    ) by {
        if s.to_set().contains(y) {
            let i = choose|i: int| 0 <= i < s.len() && s[i] == y;
            assert(s.push(x)[i] == y);
        } else {
            assert(s.push(x)[s.len() as int] == x);
        }
    }
}

proof fn lemma_reaches_lift(e: Set<(usize, usize)>, a: usize, b: usize)
    ensures
        reaches(lift_edges(e), a as u64, b as u64) == reaches(e, a, b),
{
    if reaches(e, a, b) {
        let p = choose|p: Seq<usize>| is_path(e, p) && p.first() == a && p.last() == b;
        let q = p.map_values(|x: usize| x as u64);
        assert forall|i: int| 0 <= i < q.len() - 1 implies lift_edges(e).contains(
            (#[trigger] q[i], q[i + 1]),
        ) by {
            lemma_path_edges(e, p, i);
            assert(e.contains((p[i], p[i + 1])));
            assert(lift_edges(e).contains(((p[i] as u64, p[i + 1] as u64))));
        }
        lemma_pointwise_path(lift_edges(e), q);
        assert(q.first() == a as u64 && q.last() == b as u64);
    }
    if reaches(lift_edges(e), a as u64, b as u64) {
        let q = choose|q: Seq<u64>|
            is_path(lift_edges(e), q) && q.first() == a as u64 && q.last() == b as u64;
        let p = q.map_values(|x: u64| x as usize);
        assert forall|i: int| 0 <= i < p.len() - 1 implies e.contains(
            (#[trigger] p[i], p[i + 1]),
        ) by {
            lemma_path_edges(lift_edges(e), q, i);
            let w = choose|w: (usize, usize)|
                e.contains(w) && (w.0 as u64, w.1 as u64) == (q[i], q[i + 1]);
            assert(p[i] == w.0 && p[i + 1] == w.1);
        }
        lemma_pointwise_path(e, p);
        if q.len() == 1 {
            assert(a as u64 == b as u64);
            assert(a == b);
        }
        assert(p.first() == a && p.last() == b) by {
            assert(q.first() == a as u64 && q.last() == b as u64);
            if p.first() != a {
                lemma_path_edges(lift_edges(e), q, 0);
                let w = choose|w: (usize, usize)|
                    e.contains(w) && (w.0 as u64, w.1 as u64) == (q[0], q[1]);
                assert(p.first() == w.0 && w.0 as u64 == a as u64);
            }
            if p.last() != b && q.len() >= 2 {
                lemma_path_edges(lift_edges(e), q, q.len() - 2);
                let w = choose|w: (usize, usize)|
                    e.contains(w) && (w.0 as u64, w.1 as u64) == (q[q.len() - 2], q[q.len() - 1]);
                assert(p.last() == w.1 && w.1 as u64 == b as u64);
            }
        }
    }
}

/// Removes every edge that a longer route implies.  Kept edges keep their
/// order, so an already-reduced edge list passes through unchanged.
pub fn transitive_reduction(edges: &Vec<(usize, usize)>) -> (r: Vec<(usize, usize)>)
    ensures
        r@.to_set() == reduced_edges(edges@.to_set()),
        forall|i: int| 0 <= i < r.len() ==> edges@.contains(#[trigger] r[i]),
        (forall|i: int|
            0 <= i < edges.len() ==> !shortcut(
                edges@.to_set(),
                (#[trigger] edges[i]).0,
                edges[i].1,
            )) ==> r@ == edges@,
{
    let ghost es = edges@.to_set();
    let mut g64 = digraph_new();
    let mut k: usize = 0;
    while k < edges.len()
        invariant
            k <= edges.len(),
            digraph_edges(g64) == lift_edges(edges@.subrange(0, k as int).to_set()),
        decreases edges.len() - k,
    {
        let (a, b) = edges[k];
        let ghost pre = edges@.subrange(0, k as int).to_set();
        digraph_add_edge(&mut g64, a as u64, b as u64);
        proof {
            assert(edges@.subrange(0, k as int + 1) =~= edges@.subrange(0, k as int).push(
                edges@[k as int],
            ));
            lemma_push_to_set(edges@.subrange(0, k as int), edges@[k as int]);
            pre.lemma_set_map_insert_commute(
                edges@[k as int],
                |p: (usize, usize)| (p.0 as u64, p.1 as u64),
            );
            assert(lift_edges(pre.insert(edges@[k as int])) =~= lift_edges(pre).insert(
                (a as u64, b as u64),
            ));
        }
        k += 1;
    }
    proof {
        assert(edges@.subrange(0, edges@.len() as int) =~= edges@);
    }
    let mut r: Vec<(usize, usize)> = Vec::new();
    let mut k: usize = 0;
    while k < edges.len()
        invariant
            k <= edges.len(),
            digraph_edges(g64) == lift_edges(es),
            es == edges@.to_set(),
            forall|i: int| 0 <= i < r.len() ==> edges@.contains(#[trigger] r[i]),
            r@.to_set() =~= edges@.subrange(0, k as int).to_set().filter(
                |p: (usize, usize)| !shortcut(es, p.0, p.1),
            ),
            (forall|i: int|
                0 <= i < k ==> !shortcut(es, (#[trigger] edges[i]).0, edges[i].1)) ==> r@
                == edges@.subrange(0, k as int),
        decreases edges.len() - k,
    {
        let (a, b) = edges[k];
        proof {
            assert(edges@[k as int] == (a, b));
            assert(edges@.contains(edges@[k as int]));
        }
        let mut dropped = false;
        let mut j: usize = 0;
        while j < edges.len()
            invariant
                j <= edges.len(),
                es == edges@.to_set(),
                digraph_edges(g64) == lift_edges(es),
                dropped ==> shortcut(es, a, b),
                !dropped ==> forall|i: int|
                    0 <= i < j && (#[trigger] edges[i]).0 == a && edges[i].1 != b ==> !reaches(
                        es,
                        edges[i].1,
                        b,
                    ),
            decreases edges.len() - j,
        {
            let (a2, c) = edges[j];
            if a2 == a && c != b {
                if digraph_has_path(&g64, c as u64, b as u64) {
                    proof {
                        lemma_reaches_lift(es, c, b);
                        assert(edges@.contains(edges@[j as int]) && edges@[j as int] == (a, c));
                        assert(es.contains((a, c)));
                    }
                    dropped = true;
                } else {
                    proof {
                        lemma_reaches_lift(es, c, b);
                    }
                }
            }
            j += 1;
        }
        let ghost r_before = r@;
        if !dropped {
            proof {
                assert(!shortcut(es, a, b)) by {
                    if shortcut(es, a, b) {
                        let cc = choose|cc: usize|
                            cc != b && es.contains((a, cc)) && reaches(es, cc, b);
                        let i = choose|i: int|
                            0 <= i < edges@.len() && edges@[i] == (a, cc);
                        assert(!reaches(es, edges@[i].1, b));
                    }
                }
            }
            r.push((a, b));
        }
        proof {
            let f = |p: (usize, usize)| !shortcut(es, p.0, p.1);
            assert(edges@.subrange(0, k as int + 1) =~= edges@.subrange(0, k as int).push(
                (a, b),
            ));
            lemma_push_to_set(edges@.subrange(0, k as int), (a, b));
            let oldset = edges@.subrange(0, k as int).to_set();
            assert(edges@.subrange(0, k as int + 1).to_set() =~= oldset.insert((a, b)));
            if !dropped {
                assert(r@ =~= r_before.push((a, b)));
                lemma_push_to_set(r_before, (a, b));
                assert(r@.to_set() =~= r_before.to_set().insert((a, b)));
                assert(oldset.insert((a, b)).filter(f) =~= oldset.filter(f).insert((a, b)));
            } else {
                assert(oldset.insert((a, b)).filter(f) =~= oldset.filter(f));
            }
            assert(r@.to_set() =~= edges@.subrange(0, k as int + 1).to_set().filter(f));
            if (forall|i: int|
                0 <= i < k + 1 ==> !shortcut(es, (#[trigger] edges[i]).0, edges[i].1)) {
                assert(!shortcut(es, a, b));
                assert(r@ =~= edges@.subrange(0, k as int + 1)) by {
                    assert(r_before == edges@.subrange(0, k as int));
                }
            }
        }
        k += 1;
    }
    proof {
        assert(edges@.subrange(0, edges@.len() as int) =~= edges@);
        assert(r@.to_set() =~= reduced_edges(es));
    }
    r
}

/// A route in the reduced graph exists in the original, so reducing an
/// already-reduced edge set drops nothing: the reduction is idempotent.
pub proof fn lemma_reduction_idempotent(e: Set<(usize, usize)>)
    ensures
        reduced_edges(reduced_edges(e)) =~= reduced_edges(e),
{
    let e1 = reduced_edges(e);
    assert forall|p: (usize, usize)| e1.contains(p) implies !shortcut(e1, p.0, p.1) by {
        if shortcut(e1, p.0, p.1) {
            let c = choose|c: usize| c != p.1 && e1.contains((p.0, c)) && reaches(e1, c, p.1);
            let q = choose|q: Seq<usize>| is_path(e1, q) && q.first() == c && q.last() == p.1;
            assert(e1.subset_of(e));
            lemma_path_mono(e1, e, q);
            assert(reaches(e, c, p.1));
            assert(shortcut(e, p.0, p.1));
        }
    }
}

} // verus!
