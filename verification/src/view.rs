//! The session view as the command line reads it.
//!
//! The view is built outside the library from the live PipeWire graph. It
//! holds, as plain values, what the command line reads: per node its
//! identity, names, media class, channel volumes as display percentages,
//! mute and default flags; per device its profiles; the id lists of each
//! tab; and the current defaults. A map keyed by object id is held as a
//! vector; looking an id up finds its first entry.

use vstd::prelude::*;

use crate::wirehose::object_id::ObjectId;

verus! {

/// Something a node or device can be pointed at.
#[derive(Debug, Clone, Copy, PartialEq, Eq, Structural)]
pub enum Target {
    /// Follow the session default.
    Default,
    /// A node.
    Node(ObjectId),
    /// A device route: device, route index, route device.
    Route(ObjectId, i32, i32),
    /// A device profile: device, profile index.
    Profile(ObjectId, i32),
}

/// The object a target refers to, if any.
pub open spec fn target_object(t: Target) -> Option<ObjectId> {
    match t {
        Target::Default => None,
        Target::Node(id) => Some(id),
        Target::Route(id, _, _) => Some(id),
        Target::Profile(id, _) => Some(id),
    }
}

impl Target {
    /// The object this target refers to, if any.
    pub fn object_id(&self) -> (r: Option<ObjectId>)
        ensures
            r == target_object(*self),
    {
        match self {
            Target::Default => None,
            Target::Node(id) => Some(*id),
            Target::Route(id, _, _) => Some(*id),
            Target::Profile(id, _) => Some(*id),
        }
    }
}

/// A controllable node as the command line sees it.
#[derive(Debug)]
pub struct Node {
    pub object_id: ObjectId,
    pub object_serial: u64,
    pub name: String,
    pub title: String,
    pub media_class: String,
    /// Display percentage of each channel's volume (cubic mapping).
    pub channel_percents: Vec<u32>,
    /// Display percentage of the mean channel volume (cubic mapping).
    pub mean_percent: u32,
    pub mute: bool,
    pub is_default_sink: bool,
    pub is_default_source: bool,
    pub target_title: String,
    pub client_id: Option<ObjectId>,
    /// Where the node is routed, if known.
    pub target: Option<Target>,
    /// The targets the node can be routed to, with their labels.
    pub targets: Vec<(Target, String)>,
    /// The node's peak meter levels as display percentages, one per
    /// channel; empty when the node has no peak meter.
    pub peak_percents: Vec<u32>,
    /// The device route backing the node, when it is a device endpoint:
    /// the device, the route index and the route device.
    pub device_info: Option<(ObjectId, i32, i32)>,
}

/// A device as the command line sees it.
#[derive(Debug)]
pub struct Device {
    pub object_id: ObjectId,
    pub object_serial: u64,
    pub title: String,
    /// The active target (profile) of the device, if known.
    pub target: Option<Target>,
    pub target_title: String,
    /// Selectable targets with their descriptions.
    pub profiles: Vec<(Target, String)>,
}

/// The projection of the session graph the command line works on.
#[derive(Debug)]
pub struct SessionView {
    pub nodes: Vec<Node>,
    pub devices: Vec<Device>,
    /// Every listed node id, in display order.
    pub nodes_all: Vec<ObjectId>,
    pub nodes_playback: Vec<ObjectId>,
    pub nodes_recording: Vec<ObjectId>,
    pub nodes_output: Vec<ObjectId>,
    pub nodes_input: Vec<ObjectId>,
    /// Every listed device id, in display order.
    pub devices_all: Vec<ObjectId>,
    pub default_sink: Option<Target>,
    pub default_source: Option<Target>,
}

/// `i` is the first position of `id` in `ids`.
pub open spec fn is_first(ids: Seq<ObjectId>, id: ObjectId, i: int) -> bool {
    &&& 0 <= i < ids.len()
    &&& ids[i] == id
    &&& forall|j: int| 0 <= j < i ==> ids[j] != id
}

/// The first position of `id` in `ids`, if it occurs.
pub open spec fn position(ids: Seq<ObjectId>, id: ObjectId) -> Option<int> {
    if exists|i: int| is_first(ids, id, i) {
        Some(choose|i: int| is_first(ids, id, i))
    } else {
        None
    }
}

/// The first position is unique.
pub proof fn lemma_first_unique(ids: Seq<ObjectId>, id: ObjectId, i: int, k: int)
    requires
        is_first(ids, id, i),
        is_first(ids, id, k),
    ensures
        i == k,
{
}

/// The ids of a sequence of nodes.
pub open spec fn node_ids(nodes: Seq<Node>) -> Seq<ObjectId> {
    Seq::new(nodes.len(), |i: int| nodes[i].object_id)
}

/// The ids of a sequence of devices.
pub open spec fn device_ids(devices: Seq<Device>) -> Seq<ObjectId> {
    Seq::new(devices.len(), |i: int| devices[i].object_id)
}

/// Finds the first position of `id` in `ids`.
pub fn find_id(ids: &Vec<ObjectId>, id: ObjectId) -> (r: Option<usize>)
    ensures
        match r {
            Some(i) => position(ids@, id) == Some(i as int),
            None => position(ids@, id) is None,
        },
{
    let mut i: usize = 0;
    while i < ids.len()
        invariant
            i <= ids@.len(),
            forall|j: int| 0 <= j < i ==> ids@[j] != id,
        decreases ids@.len() - i,
    {
        if ids[i] == id {
            assert(is_first(ids@, id, i as int));
            proof {
                let k = choose|k: int| is_first(ids@, id, k);
                lemma_first_unique(ids@, id, i as int, k);
            }
            return Some(i);
        }
        i += 1;
    }
    assert(!exists|k: int| is_first(ids@, id, k));
    None
}

/// Whether `id` occurs in `ids`.
pub fn contains_id(ids: &Vec<ObjectId>, id: ObjectId) -> (r: bool)
    ensures
        r == ids@.contains(id),
{
    let found = find_id(ids, id);
    proof {
        if ids@.contains(id) {
            let j = choose|j: int| 0 <= j < ids@.len() && ids@[j] == id;
            if found is None {
                assert(!is_first(ids@, id, j));
                // the earliest occurrence is a first position
                lemma_has_first(ids@, id, j);
            }
        }
    }
    found.is_some()
}

/// An occurrence implies a first occurrence.
pub proof fn lemma_has_first(ids: Seq<ObjectId>, id: ObjectId, j: int)
    requires
        0 <= j < ids.len(),
        ids[j] == id,
    ensures
        exists|i: int| is_first(ids, id, i),
    decreases j,
{
    if !is_first(ids, id, j) {
        let k = choose|k: int| 0 <= k < j && ids[k] == id;
        lemma_has_first(ids, id, k);
    }
}

/// The node a view holds for `id`, if any (its first entry).
pub open spec fn node_for(v: SessionView, id: ObjectId) -> Option<Node> {
    match position(node_ids(v.nodes@), id) {
        Some(i) => Some(v.nodes@[i]),
        None => None,
    }
}

/// The device a view holds for `id`, if any (its first entry).
pub open spec fn device_for(v: SessionView, id: ObjectId) -> Option<Device> {
    match position(device_ids(v.devices@), id) {
        Some(i) => Some(v.devices@[i]),
        None => None,
    }
}

/// Whether the view holds a node for an id.
pub open spec fn node_listed(v: SessionView) -> spec_fn(ObjectId) -> bool {
    |id: ObjectId| node_for(v, id) is Some
}

/// Whether the view holds a device for an id.
pub open spec fn device_listed(v: SessionView) -> spec_fn(ObjectId) -> bool {
    |id: ObjectId| device_for(v, id) is Some
}

impl SessionView {
    /// Looks up the node with id `id`.
    pub fn node(&self, id: ObjectId) -> (r: Option<&Node>)
        ensures
            match r {
                Some(n) => node_for(*self, id) == Some(*n),
                None => node_for(*self, id) is None,
            },
    {
        let mut i: usize = 0;
        while i < self.nodes.len()
            invariant
                i <= self.nodes@.len(),
                forall|j: int| 0 <= j < i ==> self.nodes@[j].object_id != id,
            decreases self.nodes@.len() - i,
        {
            if self.nodes[i].object_id == id {
                let ghost ids = node_ids(self.nodes@);
                assert(is_first(ids, id, i as int));
                proof {
                    let k = choose|k: int| is_first(ids, id, k);
                    lemma_first_unique(ids, id, i as int, k);
                }
                return Some(&self.nodes[i]);
            }
            i += 1;
        }
        assert(!exists|k: int| is_first(node_ids(self.nodes@), id, k));
        None
    }

    /// Looks up the device with id `id`.
    pub fn device(&self, id: ObjectId) -> (r: Option<&Device>)
        ensures
            match r {
                Some(d) => device_for(*self, id) == Some(*d),
                None => device_for(*self, id) is None,
            },
    {
        let mut i: usize = 0;
        while i < self.devices.len()
            invariant
                i <= self.devices@.len(),
                forall|j: int| 0 <= j < i ==> self.devices@[j].object_id != id,
            decreases self.devices@.len() - i,
        {
            if self.devices[i].object_id == id {
                let ghost ids = device_ids(self.devices@);
                assert(is_first(ids, id, i as int));
                proof {
                    let k = choose|k: int| is_first(ids, id, k);
                    lemma_first_unique(ids, id, i as int, k);
                }
                return Some(&self.devices[i]);
            }
            i += 1;
        }
        assert(!exists|k: int| is_first(device_ids(self.devices@), id, k));
        None
    }
}

} // verus!
