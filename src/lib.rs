//! Node-side logic for nodes of a message-passing cluster: the neighbour
//! view, deduplicated flooding, a grow-only replicated set and the
//! compare-and-swap rules of a linearizable key-value proxy.
pub mod broadcast;
pub mod gset;
pub mod kv;
pub mod node;
pub mod topology;
