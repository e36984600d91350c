//! Stable, snake_case data-transfer objects for machine output.
//!
//! These project the session view and object graph into a documented,
//! version-stable shape. Maps are held as vectors of entries in ascending key
//! order, the order in which they are emitted.

use vstd::prelude::*;

use crate::cli::error::opt_view;
use crate::keyed::{distinct_keys, entry_map, fold_entries, has_key, lemma_entry_map_empty, lemma_entry_map_insert, lemma_entry_map_update, lemma_fold_step};
use crate::text::{lemma_text_lt_irreflexive, lemma_text_lt_total, lemma_text_lt_transitive, same, text_less, text_lt};
use crate::view::{device_for, device_listed, node_for, node_listed, target_object, Device, Node, SessionView, Target};
use crate::wirehose::object_id::ObjectId;
use crate::wirehose::state::{Link, Metadata, State};

verus! {

/// A text read by its characters.
pub open spec fn text_key() -> spec_fn(String) -> Seq<char> {
    |s: String| s@
}

/// A subject id read as itself.
pub open spec fn subject_key() -> spec_fn(u32) -> u32 {
    |k: u32| k
}

/// A property list read in order, later keys replacing earlier ones.
pub open spec fn property_map() -> spec_fn(Vec<(String, String)>) -> Map<Seq<char>, Seq<char>> {
    |v: Vec<(String, String)>| fold_entries(v@, text_key(), text_key())
}

/// A property list with distinct keys read as a map.
pub open spec fn sorted_property_map() -> spec_fn(Vec<(String, String)>) -> Map<Seq<char>, Seq<char>> {
    |v: Vec<(String, String)>| entry_map(v@, text_key(), text_key())
}

/// Keys strictly ascend in code point order.
pub open spec fn keys_ascending(s: Seq<(String, String)>) -> bool {
    forall|i: int, j: int| 0 <= i < j < s.len() ==> text_lt(#[trigger] s[i].0@, #[trigger] s[j].0@)
}

/// Subjects strictly ascend.
pub open spec fn subjects_ascending(s: Seq<(u32, Vec<(String, String)>)>) -> bool {
    forall|i: int, j: int| 0 <= i < j < s.len() ==> #[trigger] s[i].0 < #[trigger] s[j].0
}

proof fn lemma_ascending_distinct(s: Seq<(String, String)>)
    requires
        keys_ascending(s),
    ensures
        distinct_keys(s, text_key()),
{
    assert forall|i: int, j: int| 0 <= i < s.len() && 0 <= j < s.len() && i != j implies text_key()(#[trigger] s[i].0) != text_key()(#[trigger] s[j].0) by {
        if s[i].0@ == s[j].0@ {
            lemma_text_lt_irreflexive(s[i].0@);
            if i < j {
                assert(text_lt(s[i].0@, s[j].0@));
            } else {
                assert(text_lt(s[j].0@, s[i].0@));
            }
        }
    }
}

proof fn lemma_subjects_distinct(s: Seq<(u32, Vec<(String, String)>)>)
    requires
        subjects_ascending(s),
    ensures
        distinct_keys(s, subject_key()),
{
    assert forall|i: int, j: int| 0 <= i < s.len() && 0 <= j < s.len() && i != j implies subject_key()(#[trigger] s[i].0) != subject_key()(#[trigger] s[j].0) by {
        if i < j {
            assert(s[i].0 < s[j].0);
        } else {
            assert(s[j].0 < s[i].0);
        }
    }
}

/// Sets `key` to `value` in a property list kept in ascending key order.
fn insert_property(v: &mut Vec<(String, String)>, key: String, value: String)
    requires
        keys_ascending(old(v)@),
    ensures
        keys_ascending(final(v)@),
        entry_map(final(v)@, text_key(), text_key()) == entry_map(old(v)@, text_key(), text_key()).insert(key@, value@),
{
    let mut p: usize = 0;
    while p < v.len()
        invariant
            p <= v@.len(),
            keys_ascending(v@),
            forall|i: int| 0 <= i < p ==> text_lt(#[trigger] v@[i].0@, key@),
        ensures
            p <= v@.len(),
            forall|i: int| 0 <= i < p ==> text_lt(#[trigger] v@[i].0@, key@),
            p < v@.len() ==> !text_lt(v@[p as int].0@, key@),
        decreases v@.len() - p,
    {
        if !text_less(v[p].0.as_str(), key.as_str()) {
            break;
        }
        p += 1;
    }
    proof {
        lemma_ascending_distinct(v@);
    }
    if p < v.len() && same(v[p].0.as_str(), key.as_str()) {
        let ghost s = v@;
        let ghost e = (key, value);
        proof {
            lemma_entry_map_update(s, p as int, e, text_key(), text_key());
        }
        v.set(p, (key, value));
        assert forall|i: int, j: int| 0 <= i < j < v@.len() implies text_lt(#[trigger] v@[i].0@, #[trigger] v@[j].0@) by {
            assert(v@[i].0@ == s[i].0@);
            assert(v@[j].0@ == s[j].0@);
        }
    } else {
        let ghost s = v@;
        let ghost e = (key, value);
        proof {
            if p < s.len() {
                lemma_text_lt_total(key@, s[p as int].0@);
                assert(text_lt(key@, s[p as int].0@));
            }
            assert forall|i: int| p <= i < s.len() implies text_lt(key@, #[trigger] s[i].0@) by {
                if i > p {
                    assert(text_lt(s[p as int].0@, s[i].0@));
                    lemma_text_lt_transitive(key@, s[p as int].0@, s[i].0@);
                }
            }
            assert(!has_key(s, text_key(), key@)) by {
                if has_key(s, text_key(), key@) {
                    let i = choose|i: int| 0 <= i < s.len() && text_key()(#[trigger] s[i].0) == key@;
                    lemma_text_lt_irreflexive(key@);
                    if i < p {
                        assert(text_lt(s[i].0@, key@));
                    } else {
                        assert(text_lt(key@, s[i].0@));
                    }
                }
            }
            lemma_entry_map_insert(s, p as int, e, text_key(), text_key());
        }
        v.insert(p, (key, value));
        assert forall|i: int, j: int| 0 <= i < j < v@.len() implies text_lt(#[trigger] v@[i].0@, #[trigger] v@[j].0@) by {
            if j < p {
                assert(v@[i] == s[i] && v@[j] == s[j]);
            } else if j == p {
                assert(v@[i] == s[i]);
            } else if i < p {
                assert(v@[i] == s[i] && v@[j] == s[j - 1]);
                assert(text_lt(key@, s[j - 1].0@));
                lemma_text_lt_transitive(s[i].0@, key@, s[j - 1].0@);
            } else if i == p {
                assert(v@[j] == s[j - 1]);
            } else {
                assert(v@[i] == s[i - 1] && v@[j] == s[j - 1]);
            }
        }
    }
}

/// The properties of one subject in ascending key order, a later entry
/// replacing an earlier one with the same key.
fn sorted_properties(props: &Vec<(String, String)>) -> (r: Vec<(String, String)>)
    ensures
        keys_ascending(r@),
        entry_map(r@, text_key(), text_key()) == fold_entries(props@, text_key(), text_key()),
{
    let mut out: Vec<(String, String)> = Vec::new();
    proof {
        lemma_entry_map_empty(out@, text_key(), text_key());
        assert(props@.subrange(0, 0).len() == 0);
    }
    let mut i: usize = 0;
    while i < props.len()
        invariant
            i <= props@.len(),
            keys_ascending(out@),
            entry_map(out@, text_key(), text_key()) == fold_entries(props@.subrange(0, i as int), text_key(), text_key()),
        decreases props@.len() - i,
    {
        let key = props[i].0.clone();
        let value = props[i].1.clone();
        proof {
            lemma_fold_step(props@, i as int, text_key(), text_key());
        }
        insert_property(&mut out, key, value);
        i += 1;
    }
    assert(props@.subrange(0, props@.len() as int) =~= props@);
    out
}

/// Sets `subject` to `props` in a subject list kept in ascending order.
fn insert_subject(v: &mut Vec<(u32, Vec<(String, String)>)>, subject: u32, props: Vec<(String, String)>)
    requires
        subjects_ascending(old(v)@),
    ensures
        subjects_ascending(final(v)@),
        entry_map(final(v)@, subject_key(), sorted_property_map()) == entry_map(old(v)@, subject_key(), sorted_property_map()).insert(subject, sorted_property_map()(props)),
        forall|i: int| 0 <= i < final(v)@.len() ==> (#[trigger] final(v)@[i]).1 == props || exists|j: int| 0 <= j < old(v)@.len() && final(v)@[i].1 == #[trigger] old(v)@[j].1,
{
    let mut p: usize = 0;
    while p < v.len()
        invariant
            p <= v@.len(),
            subjects_ascending(v@),
            forall|i: int| 0 <= i < p ==> #[trigger] v@[i].0 < subject,
        ensures
            p <= v@.len(),
            forall|i: int| 0 <= i < p ==> #[trigger] v@[i].0 < subject,
            p < v@.len() ==> v@[p as int].0 >= subject,
        decreases v@.len() - p,
    {
        if v[p].0 >= subject {
            break;
        }
        p += 1;
    }
    proof {
        lemma_subjects_distinct(v@);
    }
    let ghost s = v@;
    let ghost e = (subject, props);
    if p < v.len() && v[p].0 == subject {
        proof {
            lemma_entry_map_update(s, p as int, e, subject_key(), sorted_property_map());
        }
        v.set(p, (subject, props));
        assert forall|i: int, j: int| 0 <= i < j < v@.len() implies #[trigger] v@[i].0 < #[trigger] v@[j].0 by {
            assert(v@[i].0 == s[i].0);
            assert(v@[j].0 == s[j].0);
        }
        assert forall|i: int| 0 <= i < v@.len() implies (#[trigger] v@[i]).1 == e.1 || exists|j: int| 0 <= j < s.len() && v@[i].1 == #[trigger] s[j].1 by {
            if i != p {
                assert(v@[i].1 == s[i].1);
            }
        }
    } else {
        proof {
            assert(!has_key(s, subject_key(), subject)) by {
                if has_key(s, subject_key(), subject) {
                    let i = choose|i: int| 0 <= i < s.len() && subject_key()(#[trigger] s[i].0) == subject;
                    if i > p {
                        assert(s[p as int].0 < s[i].0);
                    }
                }
            }
            lemma_entry_map_insert(s, p as int, e, subject_key(), sorted_property_map());
        }
        v.insert(p, (subject, props));
        assert forall|i: int, j: int| 0 <= i < j < v@.len() implies #[trigger] v@[i].0 < #[trigger] v@[j].0 by {
            if j < p {
                assert(v@[i] == s[i] && v@[j] == s[j]);
            } else if j == p {
                assert(v@[i] == s[i]);
            } else if i < p {
                assert(v@[i] == s[i] && v@[j] == s[j - 1]);
                if j - 1 > p {
                    assert(s[p as int].0 < s[j - 1].0);
                }
            } else if i == p {
                assert(v@[j] == s[j - 1]);
                if j - 1 > p {
                    assert(s[p as int].0 < s[j - 1].0);
                }
            } else {
                assert(v@[i] == s[i - 1] && v@[j] == s[j - 1]);
            }
        }
        assert forall|i: int| 0 <= i < v@.len() implies (#[trigger] v@[i]).1 == e.1 || exists|j: int| 0 <= j < s.len() && v@[i].1 == #[trigger] s[j].1 by {
            if i < p {
                assert(v@[i].1 == s[i].1);
            } else if i > p {
                assert(v@[i].1 == s[i - 1].1);
            }
        }
    }
}

/// A metadata object for machine output.
#[derive(Debug)]
pub struct MetadataDto {
    pub id: u32,
    pub name: Option<String>,
    /// Properties keyed by subject id, then by property key, both ascending.
    pub properties: Vec<(u32, Vec<(String, String)>)>,
}

/// `d` projects `m`: same id and name, properties ordered by subject and
/// then by key, holding what `m`'s properties hold when read in order.
pub open spec fn metadata_projects(m: Metadata, d: MetadataDto) -> bool {
    &&& d.id == m.object_id.0
    &&& opt_view(d.name) == opt_view(m.metadata_name)
    &&& subjects_ascending(d.properties@)
    &&& forall|i: int| 0 <= i < d.properties@.len() ==> keys_ascending(#[trigger] d.properties@[i].1@)
    &&& entry_map(d.properties@, subject_key(), sorted_property_map()) == fold_entries(m.properties@, subject_key(), property_map())
}

impl MetadataDto {
    /// Project a metadata object: its id, name, and its properties ordered
    /// by subject and then by key.
    pub fn from(metadata: &Metadata) -> (r: MetadataDto)
        ensures
            metadata_projects(*metadata, r),
    {
        let mut out: Vec<(u32, Vec<(String, String)>)> = Vec::new();
        proof {
            lemma_entry_map_empty(out@, subject_key(), sorted_property_map());
        }
        let mut i: usize = 0;
        while i < metadata.properties.len()
            invariant
                i <= metadata.properties@.len(),
                subjects_ascending(out@),
                forall|k: int| 0 <= k < out@.len() ==> keys_ascending(#[trigger] out@[k].1@),
                entry_map(out@, subject_key(), sorted_property_map()) == fold_entries(metadata.properties@.subrange(0, i as int), subject_key(), property_map()),
            decreases metadata.properties@.len() - i,
        {
            let subject = metadata.properties[i].0;
            let props = sorted_properties(&metadata.properties[i].1);
            proof {
                lemma_fold_step(metadata.properties@, i as int, subject_key(), property_map());
                assert(sorted_property_map()(props) == property_map()(metadata.properties@[i as int].1));
            }
            let ghost before = out@;
            insert_subject(&mut out, subject, props);
            assert forall|k: int| 0 <= k < out@.len() implies keys_ascending(#[trigger] out@[k].1@) by {
                if out@[k].1 != props {
                    let j = choose|j: int| 0 <= j < before.len() && out@[k].1 == #[trigger] before[j].1;
                    assert(keys_ascending(before[j].1@));
                }
            }
            i += 1;
        }
        assert(metadata.properties@.subrange(0, metadata.properties@.len() as int) =~= metadata.properties@);
        let name = match &metadata.metadata_name {
            Some(n) => Some(n.clone()),
            None => None,
        };
        MetadataDto { id: metadata.object_id.0, name, properties: out }
    }
}

/// The tab a node is listed under: playback, recording, output, input, or
/// other when it is in none of them (checked in that order).
pub open spec fn node_kind_v(v: SessionView, id: ObjectId) -> Seq<char> {
    if v.nodes_playback@.contains(id) {
        "playback"@
    } else if v.nodes_recording@.contains(id) {
        "recording"@
    } else if v.nodes_output@.contains(id) {
        "output"@
    } else if v.nodes_input@.contains(id) {
        "input"@
    } else {
        "other"@
    }
}

/// The tab/category a controllable node belongs to.
pub fn node_kind(view: &SessionView, id: ObjectId) -> (r: &'static str)
    ensures
        r@ == node_kind_v(*view, id),
{
    if crate::view::contains_id(&view.nodes_playback, id) {
        "playback"
    } else if crate::view::contains_id(&view.nodes_recording, id) {
        "recording"
    } else if crate::view::contains_id(&view.nodes_output, id) {
        "output"
    } else if crate::view::contains_id(&view.nodes_input, id) {
        "input"
    } else {
        "other"
    }
}

/// A node for machine output.
#[derive(Debug)]
pub struct NodeDto {
    pub id: u32,
    pub serial: u64,
    pub name: String,
    pub title: String,
    pub media_class: String,
    pub kind: &'static str,
    pub volume_percent: u32,
    pub channel_volumes_percent: Vec<u32>,
    pub channels: usize,
    pub muted: bool,
    pub is_default_sink: bool,
    pub is_default_source: bool,
    /// Empty when the node has no target; then it is left out of the output.
    pub target: String,
    pub client_id: Option<u32>,
    /// Peak meter levels as display percentages, one per channel; empty
    /// when the node has no peak meter.
    pub peaks: Vec<u32>,
}

fn copy_u32s(v: &Vec<u32>) -> (r: Vec<u32>)
    ensures
        r@ == v@,
{
    let mut out: Vec<u32> = Vec::new();
    let mut i: usize = 0;
    while i < v.len()
        invariant
            i <= v@.len(),
            out@ == v@.subrange(0, i as int),
        decreases v@.len() - i,
    {
        out.push(v[i]);
        i += 1;
        assert(out@ =~= v@.subrange(0, i as int));
    }
    assert(v@.subrange(0, v@.len() as int) =~= v@);
    out
}

impl NodeDto {
    /// Project a node of `view`.
    pub fn from(view: &SessionView, node: &Node) -> (r: NodeDto)
        ensures
            r.id == node.object_id.0,
            r.serial == node.object_serial,
            r.name@ == node.name@,
            r.title@ == node.title@,
            r.media_class@ == node.media_class@,
            r.kind@ == node_kind_v(*view, node.object_id),
            r.volume_percent == node.mean_percent,
            r.channel_volumes_percent@ == node.channel_percents@,
            r.channels == node.channel_percents@.len(),
            r.muted == node.mute,
            r.is_default_sink == node.is_default_sink,
            r.is_default_source == node.is_default_source,
            r.target@ == node.target_title@,
            r.client_id == (match node.client_id {
                Some(c) => Some(c.0),
                None => None,
            }),
            r.peaks@ == node.peak_percents@,
    {
        NodeDto {
            id: node.object_id.0,
            serial: node.object_serial,
            name: node.name.clone(),
            title: node.title.clone(),
            media_class: node.media_class.clone(),
            kind: node_kind(view, node.object_id),
            volume_percent: node.mean_percent,
            channel_volumes_percent: copy_u32s(&node.channel_percents),
            channels: node.channel_percents.len(),
            muted: node.mute,
            is_default_sink: node.is_default_sink,
            is_default_source: node.is_default_source,
            target: node.target_title.clone(),
            client_id: match node.client_id {
                Some(c) => Some(c.0),
                None => None,
            },
            peaks: copy_u32s(&node.peak_percents),
        }
    }
}

/// A selectable device profile.
#[derive(Debug)]
pub struct ProfileDto {
    pub index: i32,
    pub description: String,
}

/// A device for machine output.
#[derive(Debug)]
pub struct DeviceDto {
    pub id: u32,
    pub serial: u64,
    pub title: String,
    pub active_profile_index: Option<i32>,
    /// Empty when no profile is active; then it is left out of the output.
    pub active_profile: String,
    pub profiles: Vec<ProfileDto>,
}

/// Whether a selectable target is a profile.
pub open spec fn is_profile(e: (Target, String)) -> bool {
    e.0 is Profile
}

/// The index of the active profile, when the active target is a profile.
pub open spec fn active_profile_index(t: Option<Target>) -> Option<i32> {
    match t {
        Some(Target::Profile(_, index)) => Some(index),
        _ => None,
    }
}

/// The profile entries among a device's selectable targets, in order.
pub open spec fn profile_entries(d: Device) -> Seq<(Target, String)> {
    d.profiles@.filter(|e: (Target, String)| is_profile(e))
}

/// A profile entry matches its projection.
pub open spec fn profile_projects(e: (Target, String), p: ProfileDto) -> bool {
    &&& e.0 matches Target::Profile(_, index) && p.index == index
    &&& p.description@ == e.1@
}

impl DeviceDto {
    /// Project a device: its active profile and its selectable profiles.
    pub fn from(device: &Device) -> (r: DeviceDto)
        ensures
            r.id == device.object_id.0,
            r.serial == device.object_serial,
            r.title@ == device.title@,
            r.active_profile_index == active_profile_index(device.target),
            r.active_profile@ == device.target_title@,
            r.profiles@.len() == profile_entries(*device).len(),
            forall|i: int| 0 <= i < r.profiles@.len() ==> profile_projects(profile_entries(*device)[i], #[trigger] r.profiles@[i]),
    {
        let active = match device.target {
            Some(Target::Profile(_, index)) => Some(index),
            _ => None,
        };
        let ghost pred = |e: (Target, String)| is_profile(e);
        let mut profiles: Vec<ProfileDto> = Vec::new();
        let mut i: usize = 0;
        while i < device.profiles.len()
            invariant
                i <= device.profiles@.len(),
                pred == (|e: (Target, String)| is_profile(e)),
                profiles@.len() == device.profiles@.subrange(0, i as int).filter(pred).len(),
                forall|k: int| 0 <= k < profiles@.len() ==> profile_projects(device.profiles@.subrange(0, i as int).filter(pred)[k], #[trigger] profiles@[k]),
            decreases device.profiles@.len() - i,
        {
            let ghost prefix = device.profiles@.subrange(0, i as int);
            let ghost entry = device.profiles@[i as int];
            proof {
                assert(device.profiles@.subrange(0, i + 1) =~= prefix.push(entry));
                prefix.lemma_filter_push(entry, pred);
            }
            match &device.profiles[i].0 {
                Target::Profile(_, index) => {
                    profiles.push(ProfileDto { index: *index, description: device.profiles[i].1.clone() });
                },
                _ => {},
            }
            i += 1;
        }
        assert(device.profiles@.subrange(0, device.profiles@.len() as int) =~= device.profiles@);
        DeviceDto {
            id: device.object_id.0,
            serial: device.object_serial,
            title: device.title.clone(),
            active_profile_index: active,
            active_profile: device.target_title.clone(),
            profiles,
        }
    }
}

/// A link for machine output.
#[derive(Debug, Clone, Copy)]
pub struct LinkDto {
    pub id: u32,
    pub output_id: u32,
    pub input_id: u32,
}

/// A node referred to by id and name.
#[derive(Debug)]
pub struct NodeRef {
    pub id: u32,
    pub name: String,
}

/// Object counts of a session.
#[derive(Debug, Clone, Copy)]
pub struct Counts {
    pub nodes: usize,
    pub devices: usize,
    pub links: usize,
    pub clients: usize,
    pub metadata: usize,
}

/// A session summary for machine output.
#[derive(Debug)]
pub struct ServerInfoDto {
    pub remote: Option<String>,
    pub default_sink: Option<NodeRef>,
    pub default_source: Option<NodeRef>,
    pub counts: Counts,
}

/// The node a default target designates, when it designates a listed node.
pub open spec fn default_node(v: SessionView, t: Option<Target>) -> Option<Node> {
    match t {
        Some(t) => match target_object(t) {
            Some(id) => node_for(v, id),
            None => None,
        },
        None => None,
    }
}

/// A reference projects the node it names.
pub open spec fn ref_projects(r: Option<NodeRef>, n: Option<Node>) -> bool {
    match (r, n) {
        (Some(r), Some(n)) => r.id == n.object_id.0 && r.name@ == n.name@,
        (None, None) => true,
        _ => false,
    }
}

fn node_ref(view: &SessionView, target: Option<Target>) -> (r: Option<NodeRef>)
    ensures
        ref_projects(r, default_node(*view, target)),
{
    match target {
        Some(t) => match t.object_id() {
            Some(id) => match view.node(id) {
                Some(node) => Some(NodeRef { id: id.0, name: node.name.clone() }),
                None => None,
            },
            None => None,
        },
        None => None,
    }
}

impl ServerInfoDto {
    /// Summarise a session: its remote, its default sink and source as
    /// listed nodes, and its object counts.
    pub fn from(view: &SessionView, state: &State, remote: Option<String>) -> (r: ServerInfoDto)
        ensures
            opt_view(r.remote) == opt_view(remote),
            ref_projects(r.default_sink, default_node(*view, view.default_sink)),
            ref_projects(r.default_source, default_node(*view, view.default_source)),
            r.counts.nodes == state.nodes@.len(),
            r.counts.devices == state.devices@.len(),
            r.counts.links == state.links@.len(),
            r.counts.clients == state.clients@.len(),
            r.counts.metadata == state.metadatas@.len(),
    {
        ServerInfoDto {
            remote,
            default_sink: node_ref(view, view.default_sink),
            default_source: node_ref(view, view.default_source),
            counts: Counts {
                nodes: state.nodes.len(),
                devices: state.devices.len(),
                links: state.links.len(),
                clients: state.clients.len(),
                metadata: state.metadatas.len(),
            },
        }
    }
}

/// The links of a session for machine output, in order.
pub fn link_list(state: &State) -> (r: Vec<LinkDto>)
    ensures
        r@.len() == state.links@.len(),
        forall|i: int| 0 <= i < r@.len() ==> {
            &&& (#[trigger] r@[i]).id == state.links@[i].object_id.0
            &&& r@[i].output_id == state.links@[i].output_id.0
            &&& r@[i].input_id == state.links@[i].input_id.0
        },
{
    let mut out: Vec<LinkDto> = Vec::new();
    let mut i: usize = 0;
    while i < state.links.len()
        invariant
            i <= state.links@.len(),
            out@.len() == i,
            forall|k: int| 0 <= k < i ==> {
                &&& (#[trigger] out@[k]).id == state.links@[k].object_id.0
                &&& out@[k].output_id == state.links@[k].output_id.0
                &&& out@[k].input_id == state.links@[k].input_id.0
            },
        decreases state.links@.len() - i,
    {
        let link = state.links[i];
        out.push(LinkDto { id: link.object_id.0, output_id: link.output_id.0, input_id: link.input_id.0 });
        i += 1;
    }
    out
}

/// `d` is the record of node `n` of view `v`.
pub open spec fn node_projects(v: SessionView, n: Node, d: NodeDto) -> bool {
    &&& d.id == n.object_id.0
    &&& d.serial == n.object_serial
    &&& d.name@ == n.name@
    &&& d.title@ == n.title@
    &&& d.media_class@ == n.media_class@
    &&& d.kind@ == node_kind_v(v, n.object_id)
    &&& d.volume_percent == n.mean_percent
    &&& d.channel_volumes_percent@ == n.channel_percents@
    &&& d.channels == n.channel_percents@.len()
    &&& d.muted == n.mute
    &&& d.is_default_sink == n.is_default_sink
    &&& d.is_default_source == n.is_default_source
    &&& d.target@ == n.target_title@
    &&& d.client_id == (match n.client_id {
        Some(c) => Some(c.0),
        None => None,
    })
    &&& d.peaks@ == n.peak_percents@
}

/// `d` is the record of device `dev`.
pub open spec fn device_projects(dev: Device, d: DeviceDto) -> bool {
    &&& d.id == dev.object_id.0
    &&& d.serial == dev.object_serial
    &&& d.title@ == dev.title@
    &&& d.active_profile_index == active_profile_index(dev.target)
    &&& d.active_profile@ == dev.target_title@
    &&& d.profiles@.len() == profile_entries(dev).len()
    &&& forall|i: int| 0 <= i < d.profiles@.len() ==> profile_projects(profile_entries(dev)[i], #[trigger] d.profiles@[i])
}

/// The records of every listed node the view holds, in display order.
pub fn node_list(view: &SessionView) -> (r: Vec<NodeDto>)
    ensures
        r@.len() == view.nodes_all@.filter(node_listed(*view)).len(),
        forall|i: int|
            0 <= i < r@.len() ==> {
                let id = view.nodes_all@.filter(node_listed(*view))[i];
                node_for(*view, id) matches Some(n) && node_projects(*view, n, #[trigger] r@[i])
            },
{
    let ghost pred = node_listed(*view);
    let ids = &view.nodes_all;
    let mut out: Vec<NodeDto> = Vec::new();
    let mut i: usize = 0;
    while i < ids.len()
        invariant
            pred == node_listed(*view),
            ids@ == view.nodes_all@,
            i <= ids@.len(),
            out@.len() == ids@.subrange(0, i as int).filter(pred).len(),
            forall|k: int|
                0 <= k < out@.len() ==> {
                    let id = ids@.subrange(0, i as int).filter(pred)[k];
                    node_for(*view, id) matches Some(n) && node_projects(*view, n, #[trigger] out@[k])
                },
        decreases ids@.len() - i,
    {
        let id = ids[i];
        proof {
            assert(ids@.subrange(0, i + 1) =~= ids@.subrange(0, i as int).push(id));
            ids@.subrange(0, i as int).lemma_filter_push(id, pred);
        }
        match view.node(id) {
            Some(n) => {
                out.push(NodeDto::from(view, n));
            },
            None => {},
        }
        i += 1;
    }
    assert(ids@.subrange(0, i as int) =~= ids@);
    out
}

/// The records of every listed device the view holds, in display order.
pub fn device_list(view: &SessionView) -> (r: Vec<DeviceDto>)
    ensures
        r@.len() == view.devices_all@.filter(device_listed(*view)).len(),
        forall|i: int|
            0 <= i < r@.len() ==> {
                let id = view.devices_all@.filter(device_listed(*view))[i];
                device_for(*view, id) matches Some(dev) && device_projects(dev, #[trigger] r@[i])
            },
{
    let ghost pred = device_listed(*view);
    let ids = &view.devices_all;
    let mut out: Vec<DeviceDto> = Vec::new();
    let mut i: usize = 0;
    while i < ids.len()
        invariant
            pred == device_listed(*view),
            ids@ == view.devices_all@,
            i <= ids@.len(),
            out@.len() == ids@.subrange(0, i as int).filter(pred).len(),
            forall|k: int|
                0 <= k < out@.len() ==> {
                    let id = ids@.subrange(0, i as int).filter(pred)[k];
                    device_for(*view, id) matches Some(dev) && device_projects(dev, #[trigger] out@[k])
                },
        decreases ids@.len() - i,
    {
        let id = ids[i];
        proof {
            assert(ids@.subrange(0, i + 1) =~= ids@.subrange(0, i as int).push(id));
            ids@.subrange(0, i as int).lemma_filter_push(id, pred);
        }
        match view.device(id) {
            Some(dev) => {
                out.push(DeviceDto::from(dev));
            },
            None => {},
        }
        i += 1;
    }
    assert(ids@.subrange(0, i as int) =~= ids@);
    out
}

/// Kind laws: a node's kind names the first tab list that holds it, in the
/// order playback, recording, output, input, and is `other` when none does;
/// the five names are distinct, so the kind tells the tab.
pub proof fn node_kind_laws(v: SessionView, id: ObjectId)
    ensures
        node_kind_v(v, id) == "playback"@ <==> v.nodes_playback@.contains(id),
        node_kind_v(v, id) == "recording"@ <==> (!v.nodes_playback@.contains(id) && v.nodes_recording@.contains(id)),
        node_kind_v(v, id) == "output"@ <==> (!v.nodes_playback@.contains(id) && !v.nodes_recording@.contains(id)
            && v.nodes_output@.contains(id)),
        node_kind_v(v, id) == "input"@ <==> (!v.nodes_playback@.contains(id) && !v.nodes_recording@.contains(id)
            && !v.nodes_output@.contains(id) && v.nodes_input@.contains(id)),
        node_kind_v(v, id) == "other"@ <==> (!v.nodes_playback@.contains(id) && !v.nodes_recording@.contains(id)
            && !v.nodes_output@.contains(id) && !v.nodes_input@.contains(id)),
{
    reveal_strlit("playback");
    reveal_strlit("recording");
    reveal_strlit("output");
    reveal_strlit("input");
    reveal_strlit("other");
    assert("playback"@ != "recording"@ && "playback"@ != "output"@ && "playback"@ != "input"@ && "playback"@ != "other"@) by {
        assert("playback"@[0] != "recording"@[0]);
        assert("playback"@.len() != "output"@.len());
        assert("playback"@.len() != "input"@.len());
        assert("playback"@.len() != "other"@.len());
    }
    assert("recording"@ != "output"@ && "recording"@ != "input"@ && "recording"@ != "other"@) by {
        assert("recording"@.len() != "output"@.len());
        assert("recording"@.len() != "input"@.len());
        assert("recording"@.len() != "other"@.len());
    }
    assert("output"@ != "input"@ && "output"@ != "other"@ && "input"@ != "other"@) by {
        assert("output"@.len() != "input"@.len());
        assert("output"@.len() != "other"@.len());
        assert("input"@[0] != "other"@[0]);
    }
}

} // verus!
