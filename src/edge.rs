use magnitude::Magnitude;
use vstd::prelude::*;

verus! {

/// What every kind of edge offers: its endpoints, which never change once the edge
/// is built, a mutable weight, and an id that the owning graph assigns.
pub trait Edge<W>: Sized {
    /// Id of the source vertex.
    spec fn src_id_view(&self) -> usize;

    /// Id of the destination vertex.
    spec fn dst_id_view(&self) -> usize;

    /// Current weight.
    spec fn weight_view(&self) -> Magnitude<W>;

    /// Id given to the edge by the graph that owns it.
    spec fn id_view(&self) -> usize;

    /// Builds an edge between `src_id` and `dst_id` with the given `weight`.
    fn init(src_id: usize, dst_id: usize, weight: Magnitude<W>) -> (r: Self)
        ensures
            r.src_id_view() == src_id,
            r.dst_id_view() == dst_id,
            r.weight_view() == weight,
            r.id_view() == 0,
    ;

    fn get_weight(&self) -> (r: &Magnitude<W>)
        ensures
            *r == self.weight_view(),
    ;

    /// Replaces the weight; endpoints and id stay as they were.
    fn set_weight(&mut self, weight: Magnitude<W>)
        ensures
            final(self).weight_view() == weight,
            final(self).src_id_view() == old(self).src_id_view(),
            final(self).dst_id_view() == old(self).dst_id_view(),
            final(self).id_view() == old(self).id_view(),
    ;

    fn get_src_id(&self) -> (r: usize)
        ensures
            r == self.src_id_view(),
    ;

    fn get_dst_id(&self) -> (r: usize)
        ensures
            r == self.dst_id_view(),
    ;

    fn get_id(&self) -> (r: usize)
        ensures
            r == self.id_view(),
    ;

    /// Records the id that the owning graph assigned; nothing else changes.
    fn set_id(&mut self, id: usize)
        ensures
            final(self).id_view() == id,
            final(self).weight_view() == old(self).weight_view(),
            final(self).src_id_view() == old(self).src_id_view(),
            final(self).dst_id_view() == old(self).dst_id_view(),
    ;
}

} // verus!
