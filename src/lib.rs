//! A dialog-tree runner's core: a graph of dialog nodes, a prompt template
//! that asks an intent classifier to pick one of a node's options, and the
//! engine that maps the classifier's answer back onto an edge of the graph.
pub mod text;
pub mod template;
pub mod graph;
pub mod engine;
pub mod laws;
