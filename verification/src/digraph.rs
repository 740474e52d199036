//! Trusted interface to petgraph's directed graph map.
//!
//! The clustering pass keeps its per-layer colour micro-graph in a
//! `petgraph::graphmap::DiGraphMap<u64, ()>`.  The contents of that graph
//! are named by [`digraph_edges`], and each method the pass calls is given
//! a contract over that name, matching what petgraph's source shows.

use vstd::prelude::*;
use crate::graph::reaches;

verus! {

#[verifier::external_type_specification]
#[verifier::external_body]
#[verifier::reject_recursive_types(N)]
#[verifier::reject_recursive_types(E)]
#[verifier::reject_recursive_types(Ty)]
#[verifier::reject_recursive_types(S)]
pub struct ExGraphMap<N, E, Ty, S>(petgraph::graphmap::GraphMap<N, E, Ty, S>) where
    S: std::hash::BuildHasher;

#[verifier::external_type_specification]
#[verifier::external_body]
pub struct ExDirected(petgraph::Directed);

/// The set of directed edges held by a colour micro-graph.
pub uninterp spec fn digraph_edges(g: petgraph::graphmap::DiGraphMap<u64, ()>) -> Set<(u64, u64)>;

/// Relies on petgraph's `GraphMap::new`: the new graph has no edges.
#[verifier::external_body]
pub fn digraph_new() -> (g: petgraph::graphmap::DiGraphMap<u64, ()>)
    ensures
        digraph_edges(g) == Set::<(u64, u64)>::empty(),
{
    petgraph::graphmap::DiGraphMap::new()
}

/// Relies on petgraph's `GraphMap::clear`: removes all nodes and edges.
#[verifier::external_body]
pub fn digraph_clear(g: &mut petgraph::graphmap::DiGraphMap<u64, ()>)
    ensures
        digraph_edges(*final(g)) == Set::<(u64, u64)>::empty(),
{
    g.clear();
}

/// Relies on petgraph's `GraphMap::add_edge`: adds the directed edge
/// `a -> b` (and its endpoints), keeping every other edge.
#[verifier::external_body]
pub fn digraph_add_edge(g: &mut petgraph::graphmap::DiGraphMap<u64, ()>, a: u64, b: u64)
    ensures
        digraph_edges(*final(g)) == digraph_edges(*old(g)).insert((a, b)),
{
    g.add_edge(a, b, ());
}

/// Relies on petgraph's `visit::Dfs`: a depth-first traversal from `from`
/// visits exactly `from` and the nodes reachable from it along directed
/// edges, so the search finds `to` iff `from` reaches `to`.
#[verifier::external_body]
pub fn digraph_has_path(
    g: &petgraph::graphmap::DiGraphMap<u64, ()>,
    from: u64,
    to: u64,
) -> (r: bool)
    ensures
        r == reaches(digraph_edges(*g), from, to),
{
    let mut dfs = petgraph::visit::Dfs::new(g, from);
    while let Some(x) = dfs.next(g) {
        if x == to {
            return true;
        }
    }
    false
}

} // verus!
