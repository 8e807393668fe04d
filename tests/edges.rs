use magnitude::Magnitude;
use prepona::text::int_text;
use prepona::{DefaultEdge, Edge, FlowEdge};
use std::convert::TryInto;

#[test]
fn default_edge_init() {
    let edge = DefaultEdge::init(0, 1, 2.into());

    assert_eq!(edge.get_src_id(), 0);
    assert_eq!(edge.get_dst_id(), 1);
    assert_eq!(edge.get_weight(), &2.into());
}

#[test]
fn default_edge_set_weight() {
    let mut edge = DefaultEdge::init(0, 1, 2.into());

    edge.set_weight(3.into());

    assert_eq!(edge.get_weight(), &3.into());
}

#[test]
fn default_edge_from_triplet() {
    let edge: DefaultEdge<usize> = (0, 1, 2).into();

    assert_eq!(edge.get_src_id(), 0);
    assert_eq!(edge.get_dst_id(), 1);
    assert_eq!(edge.get_weight(), &2.into());
}

#[test]
fn flow_edge_init() {
    let edge = FlowEdge::init(0, 1, 2.into());

    assert_eq!(edge.get_src_id(), 0);
    assert_eq!(edge.get_dst_id(), 1);
    assert_eq!(edge.get_weight(), &2.into());
    assert_eq!(edge.get_capacity(), 0);
    assert_eq!(edge.get_flow(), 0);
}

#[test]
fn init_with() {
    let edge = FlowEdge::init_with(0, 1, 2.into(), 4, 3);

    assert_eq!(edge.get_src_id(), 0);
    assert_eq!(edge.get_dst_id(), 1);
    assert_eq!(edge.get_weight(), &2.into());
    assert_eq!(edge.get_capacity(), 4);
    assert_eq!(edge.get_flow(), 3);
}

#[test]
fn flow_edge_set_weight() {
    let mut edge = FlowEdge::init(0, 1, 2.into());

    edge.set_weight(3.into());

    assert_eq!(edge.get_weight(), &3.into());
}

#[test]
fn set_capacity() {
    let mut edge = FlowEdge::init(0, 1, 2.into());

    edge.set_capacity(5);

    assert_eq!(edge.get_capacity(), 5);
}

#[test]
fn set_flow() {
    let mut edge = FlowEdge::init(0, 1, 2.into());
    edge.set_capacity(5);

    edge.set_flow(4);

    assert_eq!(edge.get_flow(), 4);
}

#[test]
fn flow_edge_from_triplet() {
    let edge: FlowEdge<usize> = (0, 1, 2).into();

    assert_eq!(edge.get_src_id(), 0);
    assert_eq!(edge.get_dst_id(), 1);
    assert_eq!(edge.get_weight(), &2.into());
    assert_eq!(edge.get_capacity(), 0);
    assert_eq!(edge.get_flow(), 0);
}

#[test]
fn from_quintuplet() {
    let edge: FlowEdge<usize> = (0, 1, 2, 4, 3).try_into().unwrap();

    assert_eq!(edge.get_src_id(), 0);
    assert_eq!(edge.get_dst_id(), 1);
    assert_eq!(edge.get_weight(), &2.into());
    assert_eq!(edge.get_capacity(), 4);
    assert_eq!(edge.get_flow(), 3);
}

#[test]
fn from_quintuplet_with_flow_larger_than_capacity() {
    let edge_res: Result<FlowEdge<usize>, String> = (0, 1, 2, 0, 4).try_into();

    assert!(edge_res.is_err());
    assert_eq!(
        edge_res.unwrap_err(),
        "Flow of the edge can not be greater than the capacity: 4 > 0".to_string()
    )
}

#[test]
fn quintuplet_with_flow_over_capacity_names_both_numbers() {
    let edge_res: Result<FlowEdge<usize>, String> = (0, 1, 2, 3, 4).try_into();

    assert_eq!(
        edge_res.err(),
        Some("Flow of the edge can not be greater than the capacity: 4 > 3".to_string())
    );
}

#[test]
fn quintuplet_with_negative_flow_and_equal_flow() {
    let edge = FlowEdge::<usize>::try_from_quintuplet((2, 5, 7, 3, -6)).unwrap();
    assert_eq!(edge.get_flow(), -6);
    assert_eq!(edge.get_capacity(), 3);

    let edge = FlowEdge::<usize>::try_from_quintuplet((2, 5, 7, 3, 3)).unwrap();
    assert_eq!(edge.get_flow(), 3);
    assert_eq!(edge.get_src_id(), 2);
    assert_eq!(edge.get_dst_id(), 5);
}

#[test]
fn quintuplet_error_message_for_zero_capacity() {
    let res = FlowEdge::<usize>::try_from_quintuplet((0, 1, 2, 0, 10));
    assert_eq!(
        res.err(),
        Some("Flow of the edge can not be greater than the capacity: 10 > 0".to_string())
    );
}

#[test]
fn set_flow_then_capacity_down_to_flow() {
    let mut edge = FlowEdge::init_with(0, 1, 2.into(), 5, 4);
    edge.set_capacity(4);
    assert_eq!(edge.get_capacity(), 4);
    edge.set_flow(-2);
    edge.set_capacity(0);
    assert_eq!(edge.get_capacity(), 0);
    assert_eq!(edge.get_flow(), -2);
    assert!(edge.get_flow() <= edge.get_capacity() as isize);
}

#[test]
fn float_infinity_becomes_infinite_weight() {
    let edge: DefaultEdge<f64> = (0, 1, f64::INFINITY).into();
    assert!(edge.get_weight().is_pos_infinite());
    let edge: FlowEdge<i32> = (3, 4, -7).into();
    assert_eq!(edge.get_weight(), &Magnitude::Finite(-7));
}

#[test]
fn set_id_keeps_endpoints_and_weight() {
    let mut edge = DefaultEdge::init(4, 9, 6.into());
    assert_eq!(edge.get_id(), 0);
    edge.set_id(12);
    assert_eq!(edge.get_id(), 12);
    assert_eq!(edge.get_src_id(), 4);
    assert_eq!(edge.get_dst_id(), 9);
    assert_eq!(edge.get_weight(), &6.into());
}

#[test]
fn try_set_flow_over_capacity_leaves_edge_unchanged() {
    let mut edge = FlowEdge::init_with(0, 1, 2.into(), 3, 1);

    let res = edge.try_set_flow(4);

    assert_eq!(
        res,
        Err("Flow of the edge can not be greater than the current capacity of the edge: 4 > 3".to_string())
    );
    assert_eq!(edge.get_flow(), 1);
    assert_eq!(edge.get_capacity(), 3);
    assert_eq!(edge.try_set_flow(3), Ok(()));
    assert_eq!(edge.get_flow(), 3);
}

#[test]
fn try_set_capacity_under_flow_leaves_edge_unchanged() {
    let mut edge = FlowEdge::init_with(0, 1, 2.into(), 5, 4);

    let res = edge.try_set_capacity(0);

    assert_eq!(
        res,
        Err("Capacity of the edge can not be smaller than the current flow of the edge: 0 < 4".to_string())
    );
    assert_eq!(edge.get_capacity(), 5);
    assert_eq!(edge.get_flow(), 4);
    assert_eq!(edge.try_set_capacity(4), Ok(()));
    assert_eq!(edge.get_capacity(), 4);
}

#[test]
fn flow_edge_set_id_keeps_flow_and_capacity() {
    let mut edge = FlowEdge::init_with(0, 1, 2.into(), 7, -3);
    edge.set_id(5);
    edge.set_weight(9.into());
    assert_eq!(edge.get_id(), 5);
    assert_eq!(edge.get_flow(), -3);
    assert_eq!(edge.get_capacity(), 7);
}

#[test]
fn int_text_writes_decimal() {
    assert_eq!(int_text(0), "0");
    assert_eq!(int_text(407), "407");
    assert_eq!(int_text(-120), "-120");
    assert_eq!(int_text(i128::MIN), i128::MIN.to_string());
    assert_eq!(int_text(i128::MAX), i128::MAX.to_string());
}
