pub mod default_edge;
pub mod edge;
pub mod flow_edge;
pub mod provide;
pub mod subgraph;
pub mod text;
pub mod weight;

pub use default_edge::DefaultEdge;
pub use edge::Edge;
pub use flow_edge::FlowEdge;
pub use subgraph::{AsMutSubgraph, AsSubgraph, Subgraph};
