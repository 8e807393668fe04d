use crate::edge::Edge;
use crate::weight::to_magnitude;
use magnitude::Magnitude;
use vstd::prelude::*;

verus! {

/// An edge that carries a weight and nothing more.
#[verifier::reject_recursive_types(W)]
pub struct DefaultEdge<W> {
    id: usize,
    src_id: usize,
    dst_id: usize,
    weight: Magnitude<W>,
}

impl<W> Edge<W> for DefaultEdge<W> {
    closed spec fn src_id_view(&self) -> usize {
        self.src_id
    }

    closed spec fn dst_id_view(&self) -> usize {
        self.dst_id
    }

    closed spec fn weight_view(&self) -> Magnitude<W> {
        self.weight
    }

    closed spec fn id_view(&self) -> usize {
        self.id
    }

    fn init(src_id: usize, dst_id: usize, weight: Magnitude<W>) -> (r: Self) {
        DefaultEdge { id: 0, src_id, dst_id, weight }
    }

    fn get_weight(&self) -> (r: &Magnitude<W>) {
        &self.weight
    }

    fn set_weight(&mut self, weight: Magnitude<W>) {
        self.weight = weight;
    }

    fn get_src_id(&self) -> (r: usize) {
        self.src_id
    }

    fn get_dst_id(&self) -> (r: usize) {
        self.dst_id
    }

    fn get_id(&self) -> (r: usize) {
        self.id
    }

    fn set_id(&mut self, id: usize) {
        self.id = id;
    }
}

impl<W: 'static> DefaultEdge<W> {
    /// Builds an edge from a `(src_id, dst_id, weight)` triple; the weight is turned
    /// into a magnitude as `Magnitude::from` does it.
    pub fn from_triplet(t: (usize, usize, W)) -> (r: Self)
        ensures
            r.src_id_view() == t.0,
            r.dst_id_view() == t.1,
            r.id_view() == 0,
            r.weight_view() matches Magnitude::Finite(v) ==> v == t.2,
    {
        let (src_id, dst_id, weight) = t;
        DefaultEdge::init(src_id, dst_id, to_magnitude(weight))
    }
}

impl<W: 'static> From<(usize, usize, W)> for DefaultEdge<W> {
    fn from(t: (usize, usize, W)) -> (r: Self)
        ensures
            r.src_id_view() == t.0,
            r.dst_id_view() == t.1,
            r.id_view() == 0,
            r.weight_view() matches Magnitude::Finite(v) ==> v == t.2,
    {
        DefaultEdge::from_triplet(t)
    }
}

impl<W: 'static> vstd::std_specs::convert::FromSpecImpl<(usize, usize, W)> for DefaultEdge<W> {
    open spec fn obeys_from_spec() -> bool {
        false
    }

    open spec fn from_spec(t: (usize, usize, W)) -> Self {
        arbitrary()
    }
}

} // verus!
