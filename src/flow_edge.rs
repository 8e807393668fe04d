use crate::edge::Edge;
use crate::text::{decimal_text, int_text};
use crate::weight::to_magnitude;
use magnitude::Magnitude;
use vstd::prelude::*;
use vstd::string::*;

verus! {

/// Text of the failure reported when a flow would exceed a capacity.
pub open spec fn flow_over_capacity_text(flow: int, capacity: int) -> Seq<char> {
    "Flow of the edge can not be greater than the capacity: "@ + decimal_text(flow) + " > "@
        + decimal_text(capacity)
}

/// Text of the failure reported when a new flow would exceed the current capacity.
pub open spec fn flow_over_current_capacity_text(flow: int, capacity: int) -> Seq<char> {
    "Flow of the edge can not be greater than the current capacity of the edge: "@
        + decimal_text(flow) + " > "@ + decimal_text(capacity)
}

/// Text of the failure reported when a new capacity would fall below the current flow.
pub open spec fn capacity_under_current_flow_text(capacity: int, flow: int) -> Seq<char> {
    "Capacity of the edge can not be smaller than the current flow of the edge: "@
        + decimal_text(capacity) + " < "@ + decimal_text(flow)
}

/// An edge that carries, besides its weight, a capacity and a current flow; the flow
/// never exceeds the capacity.
#[derive(Debug)]
#[verifier::reject_recursive_types(W)]
pub struct FlowEdge<W> {
    id: usize,
    src_id: usize,
    dst_id: usize,
    weight: Magnitude<W>,
    capacity: usize,
    flow: isize,
}

impl<W> FlowEdge<W> {
    #[verifier::type_invariant]
    closed spec fn flow_within_capacity(&self) -> bool {
        self.flow <= self.capacity
    }

    /// Current flow.
    pub closed spec fn flow_view(&self) -> int {
        self.flow as int
    }

    /// Current capacity.
    pub closed spec fn capacity_view(&self) -> nat {
        self.capacity as nat
    }

    /// Builds an edge with the given weight, capacity and flow; `flow` may not exceed
    /// `capacity`.
    pub fn init_with(
        src_id: usize,
        dst_id: usize,
        weight: Magnitude<W>,
        capacity: usize,
        flow: isize,
    ) -> (r: Self)
        requires
            flow <= capacity,
        ensures
            r.src_id_view() == src_id,
            r.dst_id_view() == dst_id,
            r.weight_view() == weight,
            r.id_view() == 0,
            r.capacity_view() == capacity,
            r.flow_view() == flow,
    {
        FlowEdge { id: 0, src_id, dst_id, weight, capacity, flow }
    }

    pub fn get_flow(&self) -> (r: isize)
        ensures
            r == self.flow_view(),
            r <= self.capacity_view(),
    {
        proof {
            use_type_invariant(self);
        }
        self.flow
    }

    pub fn get_capacity(&self) -> (r: usize)
        ensures
            r == self.capacity_view(),
            self.flow_view() <= r,
    {
        proof {
            use_type_invariant(self);
        }
        self.capacity
    }

    /// Replaces the flow, which may not exceed the current capacity; all else stays.
    pub fn set_flow(&mut self, flow: isize)
        requires
            flow <= old(self).capacity_view(),
        ensures
            final(self).flow_view() == flow,
            final(self).capacity_view() == old(self).capacity_view(),
            final(self).weight_view() == old(self).weight_view(),
            final(self).src_id_view() == old(self).src_id_view(),
            final(self).dst_id_view() == old(self).dst_id_view(),
            final(self).id_view() == old(self).id_view(),
    {
        self.flow = flow;
    }

    /// Replaces the capacity, which may not fall below the current flow; all else stays.
    pub fn set_capacity(&mut self, capacity: usize)
        requires
            old(self).flow_view() <= capacity,
        ensures
            final(self).capacity_view() == capacity,
            final(self).flow_view() == old(self).flow_view(),
            final(self).weight_view() == old(self).weight_view(),
            final(self).src_id_view() == old(self).src_id_view(),
            final(self).dst_id_view() == old(self).dst_id_view(),
            final(self).id_view() == old(self).id_view(),
    {
        self.capacity = capacity;
    }
}

impl<W> FlowEdge<W> {
    /// Replaces the flow when it does not exceed the current capacity. Otherwise the edge
    /// is left as it was and the failure text gives both numbers.
    pub fn try_set_flow(&mut self, flow: isize) -> (r: Result<(), String>)
        ensures
            r is Ok <==> flow <= old(self).capacity_view(),
            r is Ok ==> final(self).flow_view() == flow,
            r is Ok ==> final(self).capacity_view() == old(self).capacity_view(),
            r matches Err(m) ==> m@ == flow_over_current_capacity_text(
                flow as int,
                old(self).capacity_view() as int,
            ),
            r is Err ==> final(self).flow_view() == old(self).flow_view(),
            r is Err ==> final(self).capacity_view() == old(self).capacity_view(),
            final(self).weight_view() == old(self).weight_view(),
            final(self).src_id_view() == old(self).src_id_view(),
            final(self).dst_id_view() == old(self).dst_id_view(),
            final(self).id_view() == old(self).id_view(),
    {
        let capacity = self.get_capacity();
        if flow as i128 > capacity as i128 {
            let mut m = String::from_str(
                "Flow of the edge can not be greater than the current capacity of the edge: ",
            );
            m.append(int_text(flow as i128).as_str());
            m.append(" > ");
            m.append(int_text(capacity as i128).as_str());
            proof {
                reveal_strlit(
                    "Flow of the edge can not be greater than the current capacity of the edge: ",
                );
                reveal_strlit(" > ");
            }
            Err(m)
        } else {
            self.set_flow(flow);
            Ok(())
        }
    }

    /// Replaces the capacity when it is not below the current flow. Otherwise the edge is
    /// left as it was and the failure text gives both numbers.
    pub fn try_set_capacity(&mut self, capacity: usize) -> (r: Result<(), String>)
        ensures
            r is Ok <==> old(self).flow_view() <= capacity,
            r is Ok ==> final(self).capacity_view() == capacity,
            r is Ok ==> final(self).flow_view() == old(self).flow_view(),
            r matches Err(m) ==> m@ == capacity_under_current_flow_text(
                capacity as int,
                old(self).flow_view(),
            ),
            r is Err ==> final(self).flow_view() == old(self).flow_view(),
            r is Err ==> final(self).capacity_view() == old(self).capacity_view(),
            final(self).weight_view() == old(self).weight_view(),
            final(self).src_id_view() == old(self).src_id_view(),
            final(self).dst_id_view() == old(self).dst_id_view(),
            final(self).id_view() == old(self).id_view(),
    {
        let flow = self.get_flow();
        if (capacity as i128) < flow as i128 {
            let mut m = String::from_str(
                "Capacity of the edge can not be smaller than the current flow of the edge: ",
            );
            m.append(int_text(capacity as i128).as_str());
            m.append(" < ");
            m.append(int_text(flow as i128).as_str());
            proof {
                reveal_strlit(
                    "Capacity of the edge can not be smaller than the current flow of the edge: ",
                );
                reveal_strlit(" < ");
            }
            Err(m)
        } else {
            self.set_capacity(capacity);
            Ok(())
        }
    }
}

impl<W> Edge<W> for FlowEdge<W> {
    closed spec fn src_id_view(&self) -> usize {
        self.src_id
    }

    closed spec fn dst_id_view(&self) -> usize {
        self.dst_id
    }

    closed spec fn weight_view(&self) -> Magnitude<W> {
        self.weight
    }

    closed spec fn id_view(&self) -> usize {
        self.id
    }

    /// Builds an edge with the given weight, a capacity of 0 and a flow of 0.
    fn init(src_id: usize, dst_id: usize, weight: Magnitude<W>) -> (r: Self)
        ensures
            r.capacity_view() == 0,
            r.flow_view() == 0,
    {
        FlowEdge::init_with(src_id, dst_id, weight, 0, 0)
    }

    fn get_weight(&self) -> (r: &Magnitude<W>) {
        &self.weight
    }

    fn set_weight(&mut self, weight: Magnitude<W>)
        ensures
            final(self).flow_view() == old(self).flow_view(),
            final(self).capacity_view() == old(self).capacity_view(),
    {
        proof {
            use_type_invariant(&*self);
        }
        self.weight = weight;
    }

    fn get_src_id(&self) -> (r: usize) {
        self.src_id
    }

    fn get_dst_id(&self) -> (r: usize) {
        self.dst_id
    }

    fn get_id(&self) -> (r: usize) {
        self.id
    }

    fn set_id(&mut self, id: usize)
        ensures
            final(self).flow_view() == old(self).flow_view(),
            final(self).capacity_view() == old(self).capacity_view(),
    {
        proof {
            use_type_invariant(&*self);
        }
        self.id = id;
    }
}

impl<W: 'static> FlowEdge<W> {
    /// Builds an edge from a `(src_id, dst_id, weight)` triple, with a capacity of 0 and
    /// a flow of 0; the weight is turned into a magnitude as `Magnitude::from` does it.
    pub fn from_triplet(t: (usize, usize, W)) -> (r: Self)
        ensures
            r.src_id_view() == t.0,
            r.dst_id_view() == t.1,
            r.id_view() == 0,
            r.capacity_view() == 0,
            r.flow_view() == 0,
            r.weight_view() matches Magnitude::Finite(v) ==> v == t.2,
    {
        let (src_id, dst_id, weight) = t;
        FlowEdge::init_with(src_id, dst_id, to_magnitude(weight), 0, 0)
    }

    /// Builds an edge from a `(src_id, dst_id, weight, capacity, flow)` quintuple. Fails,
    /// with a text that gives both numbers, exactly when the flow exceeds the capacity.
    pub fn try_from_quintuplet(t: (usize, usize, W, usize, isize)) -> (r: Result<Self, String>)
        ensures
            r is Ok <==> t.4 <= t.3,
            r matches Ok(e) ==> {
                &&& e.src_id_view() == t.0
                &&& e.dst_id_view() == t.1
                &&& e.id_view() == 0
                &&& e.capacity_view() == t.3
                &&& e.flow_view() == t.4
                &&& e.weight_view() matches Magnitude::Finite(v) ==> v == t.2
            },
            r matches Err(m) ==> m@ == flow_over_capacity_text(t.4 as int, t.3 as int),
    {
        let (src_id, dst_id, weight, capacity, flow) = t;
        if flow as i128 > capacity as i128 {
            Err(flow_over_capacity_message(flow, capacity))
        } else {
            Ok(FlowEdge::init_with(src_id, dst_id, to_magnitude(weight), capacity, flow))
        }
    }
}

/// The failure text for a flow that exceeds a capacity.
fn flow_over_capacity_message(flow: isize, capacity: usize) -> (r: String)
    ensures
        r@ == flow_over_capacity_text(flow as int, capacity as int),
{
    let mut m = String::from_str("Flow of the edge can not be greater than the capacity: ");
    let f = int_text(flow as i128);
    m.append(f.as_str());
    m.append(" > ");
    let c = int_text(capacity as i128);
    m.append(c.as_str());
    proof {
        reveal_strlit("Flow of the edge can not be greater than the capacity: ");
        reveal_strlit(" > ");
    }
    m
}

impl<W: 'static> From<(usize, usize, W)> for FlowEdge<W> {
    fn from(t: (usize, usize, W)) -> (r: Self)
        ensures
            r.src_id_view() == t.0,
            r.dst_id_view() == t.1,
            r.id_view() == 0,
            r.capacity_view() == 0,
            r.flow_view() == 0,
            r.weight_view() matches Magnitude::Finite(v) ==> v == t.2,
    {
        FlowEdge::from_triplet(t)
    }
}

impl<W: 'static> vstd::std_specs::convert::FromSpecImpl<(usize, usize, W)> for FlowEdge<W> {
    open spec fn obeys_from_spec() -> bool {
        false
    }

    open spec fn from_spec(t: (usize, usize, W)) -> Self {
        arbitrary()
    }
}

impl<W: 'static> TryFrom<(usize, usize, W, usize, isize)> for FlowEdge<W> {
    type Error = String;

    fn try_from(t: (usize, usize, W, usize, isize)) -> (r: Result<Self, String>)
        ensures
            r is Ok <==> t.4 <= t.3,
            r matches Ok(e) ==> {
                &&& e.src_id_view() == t.0
                &&& e.dst_id_view() == t.1
                &&& e.id_view() == 0
                &&& e.capacity_view() == t.3
                &&& e.flow_view() == t.4
                &&& e.weight_view() matches Magnitude::Finite(v) ==> v == t.2
            },
            r matches Err(m) ==> m@ == flow_over_capacity_text(t.4 as int, t.3 as int),
    {
        FlowEdge::try_from_quintuplet(t)
    }
}

impl<W: 'static> vstd::std_specs::convert::TryFromSpecImpl<(usize, usize, W, usize, isize)> for FlowEdge<W> {
    open spec fn obeys_try_from_spec() -> bool {
        false
    }

    open spec fn try_from_spec(t: (usize, usize, W, usize, isize)) -> Result<Self, String> {
        arbitrary()
    }
}

} // verus!
