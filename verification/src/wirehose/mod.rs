//! PipeWire object identities, the object graph, and media classes.

pub mod graph;
pub mod media_class;
pub mod object_id;
pub mod state;
