//! The topology of clusters: which storage node serves each virtual node.

pub mod store;
