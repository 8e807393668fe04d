use prepona::provide::{DirectedEdge, Edges, Neighbors, UndirectedEdge, Vertices};
use prepona::subgraph::{AsMutSubgraph, Subgraph};
use prepona::{DefaultEdge, Edge};

type Stored = Vec<(usize, usize, DefaultEdge<usize>)>;

fn sample_graph() -> Stored {
    let mut edges = Vec::new();
    let pairs = [(0, 1, 5), (1, 2, 3), (0, 2, 9), (2, 0, 1), (0, 1, 7)];
    for (i, (s, d, w)) in pairs.iter().enumerate() {
        let mut e = DefaultEdge::init(*s, *d, (*w).into());
        e.set_id(i);
        edges.push((*s, *d, e));
    }
    edges
}

fn full_view(g: &Stored) -> Subgraph<'_, usize, DefaultEdge<usize>, DirectedEdge, Stored> {
    Subgraph::init(g, g.iter().map(|t| (t.0, t.1, &t.2)).collect(), vec![0, 1, 2, 3])
}

#[test]
fn subgraph_queries_follow_stored_edges() {
    let g = sample_graph();
    let sg = full_view(&g);

    assert_eq!(sg.vertices(), vec![0, 1, 2, 3]);
    assert_eq!(sg.neighbors(0), vec![1, 2, 1]);
    assert_eq!(sg.neighbors(3), Vec::<usize>::new());
    let from_0: Vec<(usize, usize)> = sg.edges_from(0).iter().map(|(d, e)| (*d, e.get_id())).collect();
    assert_eq!(from_0, vec![(1, 0), (2, 2), (1, 4)]);
    let between: Vec<usize> = sg.edges_between(0, 1).iter().map(|e| e.get_id()).collect();
    assert_eq!(between, vec![0, 4]);
    assert_eq!(sg.edge_between(0, 1, 4).map(|e| e.get_id()), Some(4));
    assert!(sg.edge_between(0, 1, 1).is_none());
    assert_eq!(sg.edge(3).map(|e| (e.get_src_id(), e.get_dst_id())), Some((2, 0)));
    assert!(sg.edge(10).is_none());
    assert!(sg.has_any_edge(2, 0));
    assert!(!sg.has_any_edge(1, 0));
    assert_eq!(sg.edges_count(), 5);
}

#[test]
fn directed_subgraph_lists_each_edge_once() {
    let g = sample_graph();
    let sg: Subgraph<'_, usize, DefaultEdge<usize>, DirectedEdge, Stored> =
        Subgraph::init(&g, vec![(1, 2, &g[1].2)], vec![1, 2]);
    let directed: Vec<(usize, usize, usize)> =
        sg.as_directed_edges().iter().map(|(s, d, e)| (*s, *d, e.get_id())).collect();
    assert_eq!(directed, vec![(1, 2, 1)]);
}

#[test]
fn undirected_subgraph_queries_use_stored_triples() {
    let g = sample_graph();
    let sg: Subgraph<'_, usize, DefaultEdge<usize>, UndirectedEdge, Stored> =
        Subgraph::init(&g, vec![(0, 1, &g[0].2), (1, 2, &g[1].2)], vec![0, 1, 2]);

    let directed: Vec<(usize, usize, usize)> =
        sg.as_directed_edges().iter().map(|(s, d, e)| (*s, *d, e.get_id())).collect();
    assert_eq!(directed, vec![(0, 1, 0), (1, 0, 0), (1, 2, 1), (2, 1, 1)]);
    assert_eq!(sg.edges_count(), 2);
    assert_eq!(sg.neighbors(1), vec![2]);
    assert!(sg.edges_from(2).is_empty());
    assert!(sg.has_any_edge(0, 1));
    assert!(!sg.has_any_edge(1, 0));
    assert!(sg.edge_between(2, 1, 1).is_none());
    assert_eq!(sg.edge_between(1, 2, 1).map(|e| e.get_id()), Some(1));
    assert!(sg.edges_between(1, 0).is_empty());
}

#[test]
fn subgraph_remove_edge_only_touches_view() {
    let g = sample_graph();
    let mut sg = full_view(&g);

    sg.remove_edge(0, 1, 0);

    let ids: Vec<usize> = sg.edges().iter().map(|(_, _, e)| e.get_id()).collect();
    assert_eq!(ids, vec![1, 2, 3, 4]);
    assert_eq!(sg.vertices(), vec![0, 1, 2, 3]);
    assert_eq!(g.len(), 5);
}

#[test]
fn subgraph_remove_vertex_drops_its_edges() {
    let g = sample_graph();
    let mut sg = full_view(&g);

    sg.remove_vertex(2);

    let ids: Vec<usize> = sg.edges().iter().map(|(_, _, e)| e.get_id()).collect();
    assert_eq!(ids, vec![0, 4]);
    assert_eq!(sg.vertices(), vec![0, 1, 3]);
    assert_eq!(sg.neighbors(1), Vec::<usize>::new());
    assert_eq!(g.len(), 5);
}

#[test]
fn empty_subgraph_has_nothing() {
    let g = sample_graph();
    let sg: Subgraph<'_, usize, DefaultEdge<usize>, DirectedEdge, Stored> =
        Subgraph::init(&g, Vec::new(), Vec::new());
    assert_eq!(sg.edges_count(), 0);
    assert!(sg.as_directed_edges().is_empty());
    assert!(!sg.has_any_edge(0, 1));
    assert!(sg.vertices().is_empty());
}
