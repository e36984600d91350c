//! The PipeWire object graph as the command line reads it.
//!
//! Built outside the library from the live session; it holds the objects the
//! command line lists and counts. A map keyed by object id is held as a
//! vector of its entries.

use vstd::prelude::*;

use crate::wirehose::object_id::ObjectId;

verus! {

/// A metadata object and its properties.
#[derive(Debug)]
pub struct Metadata {
    pub object_id: ObjectId,
    pub metadata_name: Option<String>,
    /// Properties by subject id, each a list of key/value pairs.
    pub properties: Vec<(u32, Vec<(String, String)>)>,
}

/// A link between an output node and an input node.
#[derive(Debug, Clone, Copy)]
pub struct Link {
    pub object_id: ObjectId,
    pub output_id: ObjectId,
    pub input_id: ObjectId,
}

/// The object graph of a session.
#[derive(Debug)]
pub struct State {
    pub nodes: Vec<ObjectId>,
    pub devices: Vec<ObjectId>,
    pub links: Vec<Link>,
    pub clients: Vec<ObjectId>,
    pub metadatas: Vec<Metadata>,
}

} // verus!
