use crate::edge::Edge;
use vstd::prelude::*;

verus! {

/// Edges that leave `src_id`, as (destination id, edge) pairs, in list order.
pub open spec fn out_edges<'a, E>(t: Seq<(usize, usize, &'a E)>, src_id: usize) -> Seq<
    (usize, &'a E),
> {
    t.filter_map(
        |x: (usize, usize, &'a E)|
            if x.0 == src_id {
                Some((x.1, x.2))
            } else {
                None
            },
    )
}

/// Destination ids of the edges that leave `src_id`, in list order.
pub open spec fn out_neighbors<'a, E>(t: Seq<(usize, usize, &'a E)>, src_id: usize) -> Seq<usize> {
    t.filter_map(
        |x: (usize, usize, &'a E)|
            if x.0 == src_id {
                Some(x.1)
            } else {
                None
            },
    )
}

/// Edges that go from `src_id` to `dst_id`, in list order.
pub open spec fn edges_on<'a, E>(t: Seq<(usize, usize, &'a E)>, src_id: usize, dst_id: usize) -> Seq<
    &'a E,
> {
    t.filter_map(
        |x: (usize, usize, &'a E)|
            if x.0 == src_id && x.1 == dst_id {
                Some(x.2)
            } else {
                None
            },
    )
}

/// Whether some edge of the list goes from `src_id` to `dst_id`.
pub open spec fn links<'a, E>(t: Seq<(usize, usize, &'a E)>, src_id: usize, dst_id: usize) -> bool {
    exists|i: int| 0 <= i < t.len() && t[i].0 == src_id && t[i].1 == dst_id
}

/// Every edge of the list twice: first as stored, then reversed.
pub open spec fn both_directions<'a, E>(t: Seq<(usize, usize, &'a E)>) -> Seq<
    (usize, usize, &'a E),
> {
    Seq::new(
        2 * t.len(),
        |k: int|
            if k % 2 == 0 {
                t[k / 2]
            } else {
                (t[k / 2].1, t[k / 2].0, t[k / 2].2)
            },
    )
}

/// `r` is the first edge of `s` whose id is `edge_id`, or `None` when no edge has it.
pub open spec fn first_with_id<'a, W, E: Edge<W>>(
    s: Seq<&'a E>,
    edge_id: usize,
    r: Option<&'a E>,
) -> bool {
    match r {
        None => forall|i: int| 0 <= i < s.len() ==> s[i].id_view() != edge_id,
        Some(e) => exists|i: int|
            0 <= i < s.len() && s[i] == e && e.id_view() == edge_id && forall|j: int|
                0 <= j < i ==> s[j].id_view() != edge_id,
    }
}

/// Ids of the vertices of a graph.
pub trait Vertices {
    /// The vertex ids, each once.
    spec fn vertex_ids(&self) -> Seq<usize>;

    fn vertices(&self) -> (r: Vec<usize>)
        ensures
            r@ == self.vertex_ids(),
    ;
}

/// Adjacency of a graph.
pub trait Neighbors {
    /// Ids of the vertices adjacent to `src_id`.
    spec fn neighbor_ids(&self, src_id: usize) -> Seq<usize>;

    fn neighbors(&self, src_id: usize) -> (r: Vec<usize>)
        ensures
            r@ == self.neighbor_ids(src_id),
    ;
}

/// Edge queries of a graph, answered from its (source id, destination id, edge) triples
/// as they are stored; `as_directed_edges` gives the directed view of them, where an
/// undirected edge stands once in each direction.
pub trait Edges<W, E: Edge<W>> {
    /// The edge triples, in the graph's order, each edge once.
    spec fn edge_list(&self) -> Seq<(usize, usize, &E)>;

    /// The directed view of the edges: for a directed graph the edge triples, for an
    /// undirected one each triple followed by its reverse.
    spec fn directed_list(&self) -> Seq<(usize, usize, &E)>;

    /// Edges that leave `src_id`, with the id of the vertex each one reaches.
    fn edges_from(&self, src_id: usize) -> (r: Vec<(usize, &E)>)
        ensures
            r@ == out_edges(self.edge_list(), src_id),
    ;

    /// All edges from `src_id` to `dst_id` (parallel edges included).
    fn edges_between(&self, src_id: usize, dst_id: usize) -> (r: Vec<&E>)
        ensures
            r@ == edges_on(self.edge_list(), src_id, dst_id),
    ;

    /// The first edge from `src_id` to `dst_id` whose id is `edge_id`, if any.
    fn edge_between(&self, src_id: usize, dst_id: usize, edge_id: usize) -> (r: Option<&E>)
        ensures
            first_with_id(edges_on(self.edge_list(), src_id, dst_id), edge_id, r),
    ;

    /// The first edge whose id is `edge_id`, if any.
    fn edge(&self, edge_id: usize) -> (r: Option<&E>)
        ensures
            first_with_id(self.edge_list().map_values(|x: (usize, usize, &E)| x.2), edge_id, r),
    ;

    /// The directed view of the edges.
    fn as_directed_edges(&self) -> (r: Vec<(usize, usize, &E)>)
        ensures
            r@ == self.directed_list(),
    ;

    /// Whether any edge goes from `src_id` to `dst_id`.
    fn has_any_edge(&self, src_id: usize, dst_id: usize) -> (r: bool)
        ensures
            r == links(self.edge_list(), src_id, dst_id),
    ;

    fn edges(&self) -> (r: Vec<(usize, usize, &E)>)
        ensures
            r@ == self.edge_list(),
    ;

    fn edges_count(&self) -> (r: usize)
        ensures
            r == self.edge_list().len(),
    ;
}

/// Whether the edges of a graph are directed.
pub trait EdgeDir {
    spec fn directed() -> bool;

    fn is_directed() -> (r: bool)
        ensures
            r == Self::directed(),
    ;
}

/// Marker of graphs whose edges are directed.
pub struct DirectedEdge;

/// Marker of graphs whose edges are undirected.
pub struct UndirectedEdge;

impl EdgeDir for DirectedEdge {
    open spec fn directed() -> bool {
        true
    }

    fn is_directed() -> (r: bool) {
        true
    }
}

impl EdgeDir for UndirectedEdge {
    open spec fn directed() -> bool {
        false
    }

    fn is_directed() -> (r: bool) {
        false
    }
}

/// A graph: vertices, adjacency and edges, with its edge direction fixed by `Ty`.
pub trait Graph<W, E: Edge<W>, Ty: EdgeDir>: Vertices + Neighbors + Edges<W, E> {

}

} // verus!
