use crate::edge::Edge;
use crate::provide::{
    both_directions, edges_on, first_with_id, links, out_edges, out_neighbors, EdgeDir, Edges,
    Graph, Neighbors, Vertices,
};
use std::marker::PhantomData;
use vstd::prelude::*;

verus! {

/// The edge triples of `t` whose edge does not have id `edge_id`, in order.
pub open spec fn without_edge<'a, W, E: Edge<W>>(t: Seq<(usize, usize, &'a E)>, edge_id: usize) -> Seq<
    (usize, usize, &'a E),
> {
    t.filter_map(
        |x: (usize, usize, &'a E)|
            if x.2.id_view() != edge_id {
                Some(x)
            } else {
                None
            },
    )
}

/// The edge triples of `t` that touch neither end at `vertex_id`, in order.
pub open spec fn without_endpoint<'a, E>(t: Seq<(usize, usize, &'a E)>, vertex_id: usize) -> Seq<
    (usize, usize, &'a E),
> {
    t.filter_map(
        |x: (usize, usize, &'a E)|
            if x.0 != vertex_id && x.1 != vertex_id {
                Some(x)
            } else {
                None
            },
    )
}

/// The ids of `v` other than `vertex_id`, in order.
pub open spec fn without_vertex(v: Seq<usize>, vertex_id: usize) -> Seq<usize> {
    v.filter_map(
        |x: usize|
            if x != vertex_id {
                Some(x)
            } else {
                None
            },
    )
}

/// Dropping the last item of a prefix one longer than `i` gives the prefix of length `i`.
proof fn lemma_prefix_step<A>(s: Seq<A>, i: int)
    requires
        0 <= i < s.len(),
    ensures
        s.subrange(0, i + 1).drop_last() == s.subrange(0, i),
{
    assert(s.subrange(0, i + 1).drop_last() =~= s.subrange(0, i));
}

/// A read-only view of a part of a graph.
pub trait AsSubgraph<W, E: Edge<W>>: Neighbors + Vertices + Edges<W, E> {

}

/// A view of a part of a graph from which vertices and edges can be taken out; the
/// graph it looks at is never changed.
pub trait AsMutSubgraph<W, E: Edge<W>>: AsSubgraph<W, E> {
    /// Takes every edge with id `edge_id` out of the view.
    fn remove_edge(&mut self, src_id: usize, dst_id: usize, edge_id: usize)
        ensures
            final(self).edge_list() == without_edge(old(self).edge_list(), edge_id),
            final(self).vertex_ids() == old(self).vertex_ids(),
    ;

    /// Takes the vertex, and every edge that touches it, out of the view.
    fn remove_vertex(&mut self, vertex_id: usize)
        ensures
            final(self).edge_list() == without_endpoint(old(self).edge_list(), vertex_id),
            final(self).vertex_ids() == without_vertex(old(self).vertex_ids(), vertex_id),
    ;
}

/// A view of some vertices and edges of `graph`, which it borrows and does not copy.
/// The view is a graph in its own right, with the edge direction `Ty` of its parent.
#[verifier::reject_recursive_types(W)]
#[verifier::reject_recursive_types(Ty)]
pub struct Subgraph<'a, W, E: Edge<W>, Ty: EdgeDir, G> {
    graph: &'a G,
    edges: Vec<(usize, usize, &'a E)>,
    vertices: Vec<usize>,
    phantom_w: PhantomData<W>,
    phantom_ty: PhantomData<Ty>,
}

impl<'a, W, E: Edge<W>, Ty: EdgeDir, G> Subgraph<'a, W, E, Ty, G> {
    /// The view's edge triples.
    pub closed spec fn edges_view(&self) -> Seq<(usize, usize, &'a E)> {
        self.edges@
    }

    /// The view's vertex ids.
    pub closed spec fn vertices_view(&self) -> Seq<usize> {
        self.vertices@
    }

    /// The view's directed edges: its triples once each when `Ty` is directed, each
    /// followed by its reverse otherwise.
    pub open spec fn directed_view(&self) -> Seq<(usize, usize, &'a E)> {
        if Ty::directed() {
            self.edges_view()
        } else {
            both_directions(self.edges_view())
        }
    }

    /// The triples of `directed_view`.
    fn directed_edges(&self) -> (r: Vec<(usize, usize, &'a E)>)
        ensures
            r@ == self.directed_view(),
    {
        let directed = Ty::is_directed();
        let mut out: Vec<(usize, usize, &'a E)> = Vec::new();
        let mut i: usize = 0;
        while i < self.edges.len()
            invariant
                i <= self.edges@.len(),
                directed == Ty::directed(),
                directed ==> out@ =~= self.edges@.subrange(0, i as int),
                !directed ==> out@ =~= both_directions(self.edges@.subrange(0, i as int)),
            decreases self.edges@.len() - i,
        {
            let (s, d, e) = self.edges[i];
            out.push((s, d, e));
            if !directed {
                out.push((d, s, e));
            }
            i += 1;
        }
        proof {
            assert(self.edges@.subrange(0, i as int) =~= self.edges@);
        }
        out
    }

    /// A view of `graph` made of the given edge triples and vertex ids.
    pub fn init(graph: &'a G, edges: Vec<(usize, usize, &'a E)>, vertices: Vec<usize>) -> (r: Self)
        ensures
            r.edges_view() == edges@,
            r.vertices_view() == vertices@,
    {
        Subgraph { graph, edges, vertices, phantom_w: PhantomData, phantom_ty: PhantomData }
    }
}

impl<'a, W, E: Edge<W>, Ty: EdgeDir, G> Vertices for Subgraph<'a, W, E, Ty, G> {
    open spec fn vertex_ids(&self) -> Seq<usize> {
        self.vertices_view()
    }

    fn vertices(&self) -> (r: Vec<usize>) {
        self.vertices.clone()
    }
}

impl<'a, W, E: Edge<W>, Ty: EdgeDir, G> Neighbors for Subgraph<'a, W, E, Ty, G> {
    open spec fn neighbor_ids(&self, src_id: usize) -> Seq<usize> {
        out_neighbors(self.edges_view(), src_id)
    }

    fn neighbors(&self, src_id: usize) -> (r: Vec<usize>) {
        let mut out: Vec<usize> = Vec::new();
        let mut i: usize = 0;
        while i < self.edges.len()
            invariant
                i <= self.edges@.len(),
                out@ == out_neighbors(self.edges@.subrange(0, i as int), src_id),
            decreases self.edges@.len() - i,
        {
            let (s, d, _) = self.edges[i];
            if s == src_id {
                out.push(d);
            }
            proof {
                lemma_prefix_step(self.edges@, i as int);
            }
            i += 1;
        }
        proof {
            assert(self.edges@.subrange(0, i as int) =~= self.edges@);
        }
        out
    }
}


impl<'a, W, E: Edge<W>, Ty: EdgeDir, G> Edges<W, E> for Subgraph<'a, W, E, Ty, G> {
    open spec fn edge_list(&self) -> Seq<(usize, usize, &E)> {
        self.edges_view()
    }

    open spec fn directed_list(&self) -> Seq<(usize, usize, &E)> {
        self.directed_view()
    }

    fn edges_from(&self, src_id: usize) -> (r: Vec<(usize, &E)>) {
        let mut out: Vec<(usize, &E)> = Vec::new();
        let mut i: usize = 0;
        while i < self.edges.len()
            invariant
                i <= self.edges@.len(),
                out@ == out_edges(self.edges@.subrange(0, i as int), src_id),
            decreases self.edges@.len() - i,
        {
            let (s, d, e) = self.edges[i];
            if s == src_id {
                out.push((d, e));
            }
            proof {
                lemma_prefix_step(self.edges@, i as int);
            }
            i += 1;
        }
        proof {
            assert(self.edges@.subrange(0, i as int) =~= self.edges@);
        }
        out
    }

    fn edges_between(&self, src_id: usize, dst_id: usize) -> (r: Vec<&E>) {
        let mut out: Vec<&E> = Vec::new();
        let mut i: usize = 0;
        while i < self.edges.len()
            invariant
                i <= self.edges@.len(),
                out@ == edges_on(self.edges@.subrange(0, i as int), src_id, dst_id),
            decreases self.edges@.len() - i,
        {
            let (s, d, e) = self.edges[i];
            if s == src_id && d == dst_id {
                out.push(e);
            }
            proof {
                lemma_prefix_step(self.edges@, i as int);
            }
            i += 1;
        }
        proof {
            assert(self.edges@.subrange(0, i as int) =~= self.edges@);
        }
        out
    }

    fn edge_between(&self, src_id: usize, dst_id: usize, edge_id: usize) -> (r: Option<&E>) {
        let between = self.edges_between(src_id, dst_id);
        let mut i: usize = 0;
        while i < between.len()
            invariant
                i <= between@.len(),
                between@ == edges_on(self.edge_list(), src_id, dst_id),
                forall|j: int| 0 <= j < i ==> between@[j].id_view() != edge_id,
            decreases between@.len() - i,
        {
            let e = between[i];
            if e.get_id() == edge_id {
                proof {
                    assert(between@[i as int] == e);
                }
                return Some(e);
            }
            i += 1;
        }
        None
    }

    fn edge(&self, edge_id: usize) -> (r: Option<&E>) {
        let ghost all = self.edges@.map_values(|x: (usize, usize, &E)| x.2);
        let mut i: usize = 0;
        while i < self.edges.len()
            invariant
                i <= self.edges@.len(),
                all == self.edges@.map_values(|x: (usize, usize, &E)| x.2),
                forall|j: int| 0 <= j < i ==> all[j].id_view() != edge_id,
            decreases self.edges@.len() - i,
        {
            let (_, _, e) = self.edges[i];
            if e.get_id() == edge_id {
                proof {
                    assert(all[i as int] == e);
                }
                return Some(e);
            }
            i += 1;
        }
        None
    }

    fn as_directed_edges(&self) -> (r: Vec<(usize, usize, &E)>)
        ensures
            Ty::directed() ==> r@ == self.edge_list(),
            !Ty::directed() ==> r@ == both_directions(self.edge_list()),
    {
        self.directed_edges()
    }

    fn has_any_edge(&self, src_id: usize, dst_id: usize) -> (r: bool) {
        let between = self.edges_between(src_id, dst_id);
        proof {
            lemma_edges_on_empty(self.edges_view(), src_id, dst_id);
        }
        between.len() != 0
    }

    fn edges(&self) -> (r: Vec<(usize, usize, &E)>) {
        let mut out: Vec<(usize, usize, &E)> = Vec::new();
        let mut i: usize = 0;
        while i < self.edges.len()
            invariant
                i <= self.edges@.len(),
                out@ =~= self.edges@.subrange(0, i as int),
            decreases self.edges@.len() - i,
        {
            out.push(self.edges[i]);
            i += 1;
        }
        proof {
            assert(self.edges@.subrange(0, i as int) =~= self.edges@);
        }
        out
    }

    fn edges_count(&self) -> (r: usize) {
        self.edges.len()
    }
}

/// No edge goes from `src_id` to `dst_id` exactly when none is listed between them.
proof fn lemma_edges_on_empty<'a, E>(t: Seq<(usize, usize, &'a E)>, src_id: usize, dst_id: usize)
    ensures
        (edges_on(t, src_id, dst_id).len() != 0) == links(t, src_id, dst_id),
    decreases t.len(),
{
    if t.len() != 0 {
        lemma_edges_on_empty(t.drop_last(), src_id, dst_id);
        if links(t.drop_last(), src_id, dst_id) {
            let i = choose|i: int|
                0 <= i < t.drop_last().len() && t.drop_last()[i].0 == src_id && t.drop_last()[i].1
                    == dst_id;
            assert(t[i] == t.drop_last()[i]);
        }
        if links(t, src_id, dst_id) && !(t.last().0 == src_id && t.last().1 == dst_id) {
            let i = choose|i: int| 0 <= i < t.len() && t[i].0 == src_id && t[i].1 == dst_id;
            assert(t.drop_last()[i] == t[i]);
        }
    }
}

impl<'a, W, E: Edge<W>, Ty: EdgeDir, G> AsSubgraph<W, E> for Subgraph<'a, W, E, Ty, G> {

}

impl<'a, W, E: Edge<W>, Ty: EdgeDir, G> Graph<W, E, Ty> for Subgraph<'a, W, E, Ty, G> {

}


impl<'a, W, E: Edge<W>, Ty: EdgeDir, G> AsMutSubgraph<W, E> for Subgraph<
    'a,
    W,
    E,
    Ty,
    G,
> {
    fn remove_edge(&mut self, src_id: usize, dst_id: usize, edge_id: usize) {
        let mut kept: Vec<(usize, usize, &'a E)> = Vec::new();
        let mut i: usize = 0;
        while i < self.edges.len()
            invariant
                i <= self.edges@.len(),
                kept@ == without_edge(self.edges@.subrange(0, i as int), edge_id),
            decreases self.edges@.len() - i,
        {
            let t = self.edges[i];
            if t.2.get_id() != edge_id {
                kept.push(t);
            }
            proof {
                lemma_prefix_step(self.edges@, i as int);
            }
            i += 1;
        }
        proof {
            assert(self.edges@.subrange(0, i as int) =~= self.edges@);
        }
        self.edges = kept;
    }

    fn remove_vertex(&mut self, vertex_id: usize) {
        let mut kept: Vec<(usize, usize, &'a E)> = Vec::new();
        let mut i: usize = 0;
        while i < self.edges.len()
            invariant
                i <= self.edges@.len(),
                kept@ == without_endpoint(self.edges@.subrange(0, i as int), vertex_id),
            decreases self.edges@.len() - i,
        {
            let t = self.edges[i];
            if t.0 != vertex_id && t.1 != vertex_id {
                kept.push(t);
            }
            proof {
                lemma_prefix_step(self.edges@, i as int);
            }
            i += 1;
        }
        proof {
            assert(self.edges@.subrange(0, i as int) =~= self.edges@);
        }
        let mut kept_vertices: Vec<usize> = Vec::new();
        let mut j: usize = 0;
        while j < self.vertices.len()
            invariant
                j <= self.vertices@.len(),
                kept_vertices@ == without_vertex(self.vertices@.subrange(0, j as int), vertex_id),
            decreases self.vertices@.len() - j,
        {
            let v = self.vertices[j];
            if v != vertex_id {
                kept_vertices.push(v);
            }
            proof {
                lemma_prefix_step(self.vertices@, j as int);
            }
            j += 1;
        }
        proof {
            assert(self.vertices@.subrange(0, j as int) =~= self.vertices@);
        }
        self.edges = kept;
        self.vertices = kept_vertices;
    }
}

} // verus!
