//! The machine-readable noun-verb command line.
//!
//! The library side of the command line: identifying nodes and devices by id
//! or name, the errors that name them, and the decisions each command makes
//! before and after it talks to PipeWire.

pub mod dto;
pub mod envelope;
pub mod error;
pub mod oneshot;
pub mod output;
pub mod schema;

use vstd::prelude::*;

use crate::cli::dto::{metadata_projects, MetadataDto};
use crate::cli::envelope::{clock_error_v, is_stamp, Response};
use crate::cli::oneshot::{open_step_v, OpenEvent};
use crate::cli::output::{get_field, lemma_first_key_at, ColorWhen, Format, Mode, Resolved};
use crate::device_kind::DeviceKind;
use crate::text::signed_decimal;
use crate::text::signed_decimal_text;
use crate::wirehose::state::{Metadata, State};
use crate::cli::error::{error_v, exit_for, exit_number, result_view, wire_name, AppError, ErrorCode, ErrorV};
use crate::json::{deep_entries, entry, lemma_deep_object, Json, JsonV};
use crate::text::{contains, debug_quoted, decimal, decimal_text, has_substring, lowercase, quote_debug, same, to_lowercase};
use crate::view::{device_for, node_for, target_object, Device, Node, SessionView, Target};
use crate::wirehose::object_id::ObjectId;

verus! {

/// Tool name reported in every response.
pub const TOOL: &'static str = "wiremix";

/// Tool version reported in every response.
pub const VERSION: &'static str = "0.1.0";

/// Maintainer attribution.
pub const MAINTAINER: &'static str = "Mohamed Hammad <Mohamed.Hammad@SpacecraftSoftware.org>";

/// Project website.
pub const WEBSITE: &'static str = "https://Wiremix.SpacecraftSoftware.org/";

/// Documentation URL carried by error envelopes.
pub const DOCS_URL: &'static str = "https://Wiremix.SpacecraftSoftware.org/";

/// How to identify a node: a numeric id, or a name.
#[derive(Debug)]
pub struct NodeTarget {
    pub id: Option<ObjectId>,
    /// A case-insensitive substring of the node's name or title, or one of
    /// the tokens `@DEFAULT_SINK@` / `@DEFAULT_SOURCE@`.
    pub name: Option<String>,
}

/// How to identify a device: a numeric id, or a name.
#[derive(Debug)]
pub struct DeviceTarget {
    pub id: Option<ObjectId>,
    /// A case-insensitive substring of the device title.
    pub name: Option<String>,
}

/// The given name, or the empty text when none was given.
pub open spec fn name_or_empty(o: Option<String>) -> Seq<char> {
    match o {
        Some(s) => s@,
        None => Seq::empty(),
    }
}

/// The object a default target refers to, if one is set.
pub open spec fn default_object(o: Option<Target>) -> Option<ObjectId> {
    match o {
        Some(t) => target_object(t),
        None => None,
    }
}

/// The error for an unknown node id.
pub open spec fn node_not_found_v(id: ObjectId) -> ErrorV {
    error_v(
        ErrorCode::NotFound,
        "no node with id "@ + decimal(id.0 as nat),
        Some("wiremix node list --json"@),
    )
}

/// The error for an unknown device id.
pub open spec fn device_not_found_v(id: ObjectId) -> ErrorV {
    error_v(
        ErrorCode::NotFound,
        "no device with id "@ + decimal(id.0 as nat),
        Some("wiremix device list --json"@),
    )
}

/// The not-found error for node `id`, hinting at the node list.
pub fn node_not_found(id: ObjectId) -> (r: AppError)
    ensures
        r@ == node_not_found_v(id),
{
    let mut m = String::from_str("no node with id ");
    let digits = decimal_text(id.0 as u64);
    m.append(digits.as_str());
    AppError::not_found(m.as_str()).with_hint("wiremix node list --json")
}

/// The not-found error for device `id`, hinting at the device list.
pub fn device_not_found(id: ObjectId) -> (r: AppError)
    ensures
        r@ == device_not_found_v(id),
{
    let mut m = String::from_str("no device with id ");
    let digits = decimal_text(id.0 as u64);
    m.append(digits.as_str());
    AppError::not_found(m.as_str()).with_hint("wiremix device list --json")
}

/// A node matches a lower-cased needle when its lower-cased name or title
/// contains it.
pub open spec fn node_matches(n: Node, needle: Seq<char>) -> bool {
    has_substring(lowercase(n.name@), needle) || has_substring(lowercase(n.title@), needle)
}

/// A device matches a lower-cased needle when its lower-cased title
/// contains it.
pub open spec fn device_matches(d: Device, needle: Seq<char>) -> bool {
    has_substring(lowercase(d.title@), needle)
}

/// Whether the listed node `id` exists and matches `needle`.
pub open spec fn node_hit(v: SessionView, needle: Seq<char>) -> spec_fn(ObjectId) -> bool {
    |id: ObjectId|
        match node_for(v, id) {
            Some(n) => node_matches(n, needle),
            None => false,
        }
}

/// Whether the listed device `id` exists and matches `needle`.
pub open spec fn device_hit(v: SessionView, needle: Seq<char>) -> spec_fn(ObjectId) -> bool {
    |id: ObjectId|
        match device_for(v, id) {
            Some(d) => device_matches(d, needle),
            None => false,
        }
}

/// The listed nodes that match `needle`, in display order.
pub open spec fn node_hits(v: SessionView, needle: Seq<char>) -> Seq<ObjectId> {
    v.nodes_all@.filter(node_hit(v, needle))
}

/// The listed devices that match `needle`, in display order.
pub open spec fn device_hits(v: SessionView, needle: Seq<char>) -> Seq<ObjectId> {
    v.devices_all@.filter(device_hit(v, needle))
}

/// What identifying a node yields: the id itself when it exists; for the
/// default tokens, the current default; otherwise the one node whose name
/// or title contains the name, case-insensitively.
pub open spec fn resolve_node_v(v: SessionView, t: NodeTarget) -> Result<ObjectId, ErrorV> {
    match t.id {
        Some(id) => if node_for(v, id) is Some {
            Ok(id)
        } else {
            Err(node_not_found_v(id))
        },
        None => {
            let name = name_or_empty(t.name);
            if name == "@DEFAULT_SINK@"@ {
                match default_object(v.default_sink) {
                    Some(id) => Ok(id),
                    None => Err(
                        error_v(
                            ErrorCode::NotFound,
                            "no default sink is set"@,
                            Some("wiremix server info --json"@),
                        ),
                    ),
                }
            } else if name == "@DEFAULT_SOURCE@"@ {
                match default_object(v.default_source) {
                    Some(id) => Ok(id),
                    None => Err(
                        error_v(
                            ErrorCode::NotFound,
                            "no default source is set"@,
                            Some("wiremix server info --json"@),
                        ),
                    ),
                }
            } else {
                let hits = node_hits(v, lowercase(name));
                if hits.len() == 0 {
                    Err(
                        error_v(
                            ErrorCode::NotFound,
                            "no node matches name "@ + debug_quoted(name),
                            Some("wiremix node list --json"@),
                        ),
                    )
                } else if hits.len() == 1 {
                    Ok(hits[0])
                } else {
                    Err(
                        error_v(
                            ErrorCode::Conflict,
                            "multiple nodes match name "@ + debug_quoted(name) + "; use an id"@,
                            Some("wiremix node list --json"@),
                        ),
                    )
                }
            }
        },
    }
}

/// What identifying a device yields: the id itself when it exists,
/// otherwise the one device whose title contains the name,
/// case-insensitively.
pub open spec fn resolve_device_v(v: SessionView, t: DeviceTarget) -> Result<ObjectId, ErrorV> {
    match t.id {
        Some(id) => if device_for(v, id) is Some {
            Ok(id)
        } else {
            Err(device_not_found_v(id))
        },
        None => {
            let name = name_or_empty(t.name);
            let hits = device_hits(v, lowercase(name));
            if hits.len() == 0 {
                Err(
                    error_v(
                        ErrorCode::NotFound,
                        "no device matches name "@ + debug_quoted(name),
                        Some("wiremix device list --json"@),
                    ),
                )
            } else if hits.len() == 1 {
                Ok(hits[0])
            } else {
                Err(
                    error_v(
                        ErrorCode::Conflict,
                        "multiple devices match name "@ + debug_quoted(name) + "; use an id"@,
                        Some("wiremix device list --json"@),
                    ),
                )
            }
        },
    }
}

fn name_text(name: &Option<String>) -> (r: &str)
    ensures
        r@ == name_or_empty(*name),
{
    match name {
        Some(s) => s.as_str(),
        None => {
            proof {
                reveal_strlit("");
            }
            ""
        },
    }
}

/// Whether node `id` is listed and matches the lower-cased `needle`.
fn node_is_hit(view: &SessionView, id: ObjectId, needle: &str) -> (r: bool)
    ensures
        r == node_hit(*view, needle@)(id),
{
    match view.node(id) {
        Some(n) => {
            let name = to_lowercase(n.name.as_str());
            if contains(name.as_str(), needle) {
                true
            } else {
                let title = to_lowercase(n.title.as_str());
                contains(title.as_str(), needle)
            }
        },
        None => false,
    }
}

/// Whether device `id` is listed and matches the lower-cased `needle`.
fn device_is_hit(view: &SessionView, id: ObjectId, needle: &str) -> (r: bool)
    ensures
        r == device_hit(*view, needle@)(id),
{
    match view.device(id) {
        Some(d) => {
            let title = to_lowercase(d.title.as_str());
            contains(title.as_str(), needle)
        },
        None => false,
    }
}

/// The hit test for devices or nodes.
pub open spec fn hit_pred(v: SessionView, needle: Seq<char>, devices: bool) -> spec_fn(ObjectId) -> bool {
    if devices {
        device_hit(v, needle)
    } else {
        node_hit(v, needle)
    }
}

/// Scans `ids` for hits, stopping after the second; returns how many were
/// found (at most two) and the first.
fn first_hits(ids: &Vec<ObjectId>, view: &SessionView, needle: &str, devices: bool) -> (r: (usize, ObjectId))
    ensures
        r.0 <= 2,
        r.0 < 2 ==> r.0 == ids@.filter(hit_pred(*view, needle@, devices)).len(),
        r.0 == 2 ==> ids@.filter(hit_pred(*view, needle@, devices)).len() >= 2,
        r.0 >= 1 ==> r.1 == ids@.filter(hit_pred(*view, needle@, devices))[0],
{
    let ghost pred = hit_pred(*view, needle@, devices);
    let mut count: usize = 0;
    let mut first = ObjectId(0);
    let mut i: usize = 0;
    while i < ids.len()
        invariant
            pred == hit_pred(*view, needle@, devices),
            i <= ids@.len(),
            count < 2,
            count == ids@.subrange(0, i as int).filter(pred).len(),
            count >= 1 ==> first == ids@.subrange(0, i as int).filter(pred)[0],
        decreases ids@.len() - i,
    {
        let id = ids[i];
        let hit = if devices {
            device_is_hit(view, id, needle)
        } else {
            node_is_hit(view, id, needle)
        };
        proof {
            assert(ids@.subrange(0, i + 1) =~= ids@.subrange(0, i as int).push(id));
            ids@.subrange(0, i as int).lemma_filter_push(id, pred);
        }
        i += 1;
        if hit {
            if count == 0 {
                first = id;
            }
            count += 1;
            if count == 2 {
                proof {
                    let pre = ids@.subrange(0, i as int);
                    let post = ids@.subrange(i as int, ids@.len() as int);
                    assert(ids@ =~= pre + post);
                    Seq::filter_distributes_over_add(pre, post, pred);
                }
                return (count, first);
            }
        }
    }
    assert(ids@.subrange(0, i as int) =~= ids@);
    (count, first)
}

/// Resolve a node target (id, name substring, or default token) to an id.
pub fn resolve_node(view: &SessionView, target: &NodeTarget) -> (r: Result<ObjectId, AppError>)
    ensures
        result_view(r) == resolve_node_v(*view, *target),
{
    if let Some(id) = target.id {
        return if view.node(id).is_some() {
            Ok(id)
        } else {
            Err(node_not_found(id))
        };
    }
    let name = name_text(&target.name);
    if same(name, "@DEFAULT_SINK@") {
        return match view.default_sink {
            Some(t) => match t.object_id() {
                Some(id) => Ok(id),
                None => Err(AppError::not_found("no default sink is set").with_hint("wiremix server info --json")),
            },
            None => Err(AppError::not_found("no default sink is set").with_hint("wiremix server info --json")),
        };
    }
    if same(name, "@DEFAULT_SOURCE@") {
        return match view.default_source {
            Some(t) => match t.object_id() {
                Some(id) => Ok(id),
                None => Err(AppError::not_found("no default source is set").with_hint("wiremix server info --json")),
            },
            None => Err(AppError::not_found("no default source is set").with_hint("wiremix server info --json")),
        };
    }
    let needle = to_lowercase(name);
    let (count, first) = first_hits(&view.nodes_all, view, needle.as_str(), false);
    let quoted = quote_debug(name);
    if count == 0 {
        let mut m = String::from_str("no node matches name ");
        m.append(quoted.as_str());
        Err(AppError::not_found(m.as_str()).with_hint("wiremix node list --json"))
    } else if count == 1 {
        Ok(first)
    } else {
        let mut m = String::from_str("multiple nodes match name ");
        m.append(quoted.as_str());
        m.append("; use an id");
        Err(AppError::new(ErrorCode::Conflict, m.as_str()).with_hint("wiremix node list --json"))
    }
}

/// Resolve a device target (id or title substring) to an id.
pub fn resolve_device(view: &SessionView, target: &DeviceTarget) -> (r: Result<ObjectId, AppError>)
    ensures
        result_view(r) == resolve_device_v(*view, *target),
{
    if let Some(id) = target.id {
        return if view.device(id).is_some() {
            Ok(id)
        } else {
            Err(device_not_found(id))
        };
    }
    let name = name_text(&target.name);
    let needle = to_lowercase(name);
    let (count, first) = first_hits(&view.devices_all, view, needle.as_str(), true);
    let quoted = quote_debug(name);
    if count == 0 {
        let mut m = String::from_str("no device matches name ");
        m.append(quoted.as_str());
        Err(AppError::not_found(m.as_str()).with_hint("wiremix device list --json"))
    } else if count == 1 {
        Ok(first)
    } else {
        let mut m = String::from_str("multiple devices match name ");
        m.append(quoted.as_str());
        m.append("; use an id");
        Err(AppError::new(ErrorCode::Conflict, m.as_str()).with_hint("wiremix device list --json"))
    }
}

/// The error envelope: `{ "error": { code, exit_code, message, hint,
/// timestamp, command, docs_url } }`, with a null hint when there is none.
pub open spec fn error_envelope_v(e: ErrorV, command: Seq<char>, timestamp: Seq<char>) -> JsonV {
    JsonV::Object(
        seq![
            (
                "error"@,
                JsonV::Object(
                    seq![
                        ("code"@, JsonV::Str(wire_name(e.code))),
                        ("exit_code"@, JsonV::Int(exit_number(exit_for(e.code)) as int)),
                        ("message"@, JsonV::Str(e.message)),
                        ("hint"@, match e.hint {
                            Some(h) => JsonV::Str(h),
                            None => JsonV::Null,
                        }),
                        ("timestamp"@, JsonV::Str(timestamp)),
                        ("command"@, JsonV::Str(command)),
                        ("docs_url"@, JsonV::Str(DOCS_URL@)),
                    ],
                ),
            ),
        ],
    )
}

/// The structured form of `err` for `command`, stamped with `timestamp`.
pub fn error_envelope(err: &AppError, command: &str, timestamp: &str) -> (r: Json)
    ensures
        r.deep() == error_envelope_v(err@, command@, timestamp@),
{
    let exit = err.exit_code().code();
    let hint = match &err.hint {
        Some(h) => Json::text(h.as_str()),
        None => Json::Null,
    };
    let mut inner: Vec<(String, Json)> = Vec::new();
    inner.push(entry("code", Json::text(err.code.wire())));
    inner.push(entry("exit_code", Json::Int(exit as i64)));
    inner.push(entry("message", Json::text(err.message.as_str())));
    inner.push(entry("hint", hint));
    inner.push(entry("timestamp", Json::text(timestamp)));
    inner.push(entry("command", Json::text(command)));
    inner.push(entry("docs_url", Json::text(DOCS_URL)));
    proof {
        lemma_deep_object(inner);
        assert(deep_entries(inner@) =~= error_envelope_v(err@, command@, timestamp@)->Object_0[0].1->Object_0);
    }
    let inner = Json::Object(inner);
    let mut outer: Vec<(String, Json)> = Vec::new();
    outer.push(entry("error", inner));
    proof {
        lemma_deep_object(outer);
        assert(deep_entries(outer@) =~= error_envelope_v(err@, command@, timestamp@)->Object_0);
    }
    Json::Object(outer)
}

/// What an error reports agrees with how the process ends: the envelope's
/// `exit_code` is the status the process exits with, never zero; its `code`
/// is the error's wire name; its `hint` is the error's hint, or null.
pub proof fn envelope_reports_exit(e: ErrorV, command: Seq<char>, timestamp: Seq<char>)
    ensures
        get_field(error_envelope_v(e, command, timestamp), "error"@) matches Some(inner) && {
            &&& get_field(inner, "code"@) == Some(JsonV::Str(wire_name(e.code)))
            &&& get_field(inner, "exit_code"@) == Some(JsonV::Int(exit_number(exit_for(e.code)) as int))
            &&& get_field(inner, "hint"@) == Some(
                match e.hint {
                    Some(h) => JsonV::Str(h),
                    None => JsonV::Null,
                },
            )
        },
        exit_number(exit_for(e.code)) != 0,
{
    reveal_strlit("error");
    reveal_strlit("code");
    reveal_strlit("exit_code");
    reveal_strlit("hint");
    reveal_strlit("message");
    let outer = error_envelope_v(e, command, timestamp)->Object_0;
    lemma_first_key_at(outer, "error"@, 0);
    let inner = outer[0].1->Object_0;
    lemma_first_key_at(inner, "code"@, 0);
    assert(inner[0].0 != "exit_code"@) by {
        assert(inner[0].0.len() != "exit_code"@.len());
    }
    lemma_first_key_at(inner, "exit_code"@, 1);
    assert forall|j: int| 0 <= j < 3 implies inner[j].0 != "hint"@ by {
        if j == 0 {
            assert(inner[j].0[0] != "hint"@[0]);
        } else {
            assert(inner[j].0.len() != "hint"@.len());
        }
    }
    lemma_first_key_at(inner, "hint"@, 3);
}

/// A target as given on the command line: `{"id": n}`, `{"name": s}`, or
/// null when neither was given.
pub open spec fn given_target_v(id: Option<ObjectId>, name: Option<String>) -> JsonV {
    match id {
        Some(id) => JsonV::Object(seq![("id"@, JsonV::Int(id.0 as int))]),
        None => match name {
            Some(n) => JsonV::Object(seq![("name"@, JsonV::Str(n@))]),
            None => JsonV::Null,
        },
    }
}

fn given_target(id: Option<ObjectId>, name: &Option<String>) -> (r: Json)
    ensures
        r.deep() == given_target_v(id, *name),
{
    let mut es: Vec<(String, Json)> = Vec::new();
    match id {
        Some(id) => {
            es.push(entry("id", Json::UInt(id.0 as u64)));
        },
        None => match name {
            Some(n) => {
                es.push(entry("name", Json::text(n.as_str())));
            },
            None => {
                return Json::Null;
            },
        },
    }
    proof {
        lemma_deep_object(es);
        assert(deep_entries(es@) =~= given_target_v(id, *name)->Object_0);
    }
    Json::Object(es)
}

/// The node target of a planned action.
pub fn target_json(target: &NodeTarget) -> (r: Json)
    ensures
        r.deep() == given_target_v(target.id, target.name),
{
    given_target(target.id, &target.name)
}

/// The device target of a planned action.
pub fn device_target_json(target: &DeviceTarget) -> (r: Json)
    ensures
        r.deep() == given_target_v(target.id, target.name),
{
    given_target(target.id, &target.name)
}

/// The mute state asked for: on, off, or none for a toggle; `--on` wins.
pub open spec fn mute_desired_v(on: bool, off: bool) -> Option<bool> {
    if on {
        Some(true)
    } else if off {
        Some(false)
    } else {
        None
    }
}

/// The mute state `--on` / `--off` ask for; neither asks for a toggle.
pub fn mute_desired(on: bool, off: bool) -> (r: Option<bool>)
    ensures
        r == mute_desired_v(on, off),
{
    match (on, off) {
        (true, _) => Some(true),
        (_, true) => Some(false),
        _ => None,
    }
}

/// Whether a node muted `current` must be toggled to reach `desired`: a
/// toggle always toggles, a desired state only when it differs.
pub fn mute_should_toggle(current: bool, desired: Option<bool>) -> (r: bool)
    ensures
        r == match desired {
            Some(d) => current != d,
            None => true,
        },
{
    match desired {
        Some(d) => current != d,
        None => true,
    }
}

/// The mute state after the decision is carried out.
pub open spec fn mute_after(current: bool, desired: Option<bool>) -> bool {
    let toggle = match desired {
        Some(d) => current != d,
        None => true,
    };
    if toggle {
        !current
    } else {
        current
    }
}

/// Mute laws: asking for a state leaves the node in that state, whatever it
/// was; a toggle flips it; asking for the state a node is already in sends
/// no command.
pub proof fn mute_reaches_desired(current: bool, on: bool, off: bool)
    ensures
        mute_desired_v(on, off) matches Some(d) ==> mute_after(current, mute_desired_v(on, off)) == d,
        mute_desired_v(on, off) is None ==> mute_after(current, mute_desired_v(on, off)) == !current,
        mute_desired_v(on, off) == Some(current) ==> !(match mute_desired_v(on, off) {
            Some(d) => current != d,
            None => true,
        }),
{
}

/// A planned action: `{"action": a, "target": t}` followed by `extra`.
pub open spec fn action_plan_v(action: Seq<char>, target: JsonV, extra: Seq<(Seq<char>, JsonV)>) -> JsonV {
    JsonV::Object(seq![("action"@, JsonV::Str(action)), ("target"@, target)] + extra)
}

/// The plan of a write: its action, its target, and the entries that
/// describe the change.
pub fn action_plan(action: &str, target: Json, extra: Vec<(String, Json)>) -> (r: Json)
    ensures
        r.deep() == action_plan_v(action@, target.deep(), deep_entries(extra@)),
{
    let ghost t = target.deep();
    let mut es: Vec<(String, Json)> = Vec::new();
    es.push(entry("action", Json::text(action)));
    es.push(entry("target", target));
    let ghost head = es@;
    let mut rest = extra;
    let ghost orig = rest@;
    let n = rest.len();
    let mut k: usize = 0;
    while k < n
        invariant
            n == orig.len(),
            k <= n,
            rest@ == orig.subrange(k as int, n as int),
            es@ == head + orig.subrange(0, k as int),
        decreases n - k,
    {
        let e = rest.remove(0);
        es.push(e);
        proof {
            assert(rest@ =~= orig.subrange(k + 1, n as int));
            assert(es@ =~= head + orig.subrange(0, k + 1));
        }
        k += 1;
    }
    proof {
        assert(orig.subrange(0, n as int) =~= orig);
        lemma_deep_object(es);
        assert(deep_entries(es@) =~= seq![("action"@, JsonV::Str(action@)), ("target"@, t)] + deep_entries(extra@));
    }
    Json::Object(es)
}

/// The dry-run plan of `node mute`: its state is `on`, `off` or `toggle`.
pub open spec fn mute_state_text(desired: Option<bool>) -> Seq<char> {
    match desired {
        Some(true) => "on"@,
        Some(false) => "off"@,
        None => "toggle"@,
    }
}

/// The plan of `node mute` for `target`.
pub fn mute_plan(target: &NodeTarget, on: bool, off: bool) -> (r: Json)
    ensures
        r.deep() == action_plan_v("node mute"@, given_target_v(target.id, target.name), seq![("state"@, JsonV::Str(mute_state_text(mute_desired_v(on, off))))]),
{
    let state = match mute_desired(on, off) {
        Some(true) => "on",
        Some(false) => "off",
        None => "toggle",
    };
    let mut extra: Vec<(String, Json)> = Vec::new();
    extra.push(entry("state", Json::text(state)));
    proof {
        assert(deep_entries(extra@) =~= seq![("state"@, JsonV::Str(mute_state_text(mute_desired_v(on, off))))]);
    }
    action_plan("node mute", target_json(target), extra)
}

/// The plan of `node set-default` for `target`.
pub fn set_default_plan(target: &NodeTarget) -> (r: Json)
    ensures
        r.deep() == action_plan_v("node set-default"@, given_target_v(target.id, target.name), Seq::empty()),
{
    let extra: Vec<(String, Json)> = Vec::new();
    proof {
        assert(deep_entries(extra@) =~= Seq::empty());
    }
    action_plan("node set-default", target_json(target), extra)
}

/// The plan of `device set-profile` for `target`.
pub fn set_profile_plan(target: &DeviceTarget, profile: i32) -> (r: Json)
    ensures
        r.deep() == action_plan_v("device set-profile"@, given_target_v(target.id, target.name), seq![("profile"@, JsonV::Int(profile as int))]),
{
    let mut extra: Vec<(String, Json)> = Vec::new();
    extra.push(entry("profile", Json::Int(profile as i64)));
    proof {
        assert(deep_entries(extra@) =~= seq![("profile"@, JsonV::Int(profile as int))]);
    }
    action_plan("device set-profile", device_target_json(target), extra)
}

/// The data of a dry run: `{"dry_run": true, "plan": plan}`.
pub open spec fn dry_run_data_v(plan: JsonV) -> JsonV {
    JsonV::Object(seq![("dry_run"@, JsonV::Bool(true)), ("plan"@, plan)])
}

/// The response of a dry run of `command`: the plan, and no change made;
/// the clock error when the clock cannot be read.
pub fn dry_run(command: &str, plan: Json) -> (r: Result<Response<Json>, AppError>)
    ensures
        match r {
            Ok(r) => {
                &&& r.metadata.tool@ == TOOL@
                &&& r.metadata.version@ == VERSION@
                &&& r.metadata.command@ == command@
                &&& is_stamp(r.metadata.timestamp@)
                &&& r.metadata.maintainer is None
                &&& r.metadata.website is None
                &&& r.data.deep() == dry_run_data_v(plan.deep())
            },
            Err(e) => e@ == clock_error_v(),
        },
{
    let ghost p = plan.deep();
    let mut es: Vec<(String, Json)> = Vec::new();
    es.push(entry("dry_run", Json::Bool(true)));
    es.push(entry("plan", plan));
    proof {
        lemma_deep_object(es);
        assert(deep_entries(es@) =~= dry_run_data_v(p)->Object_0);
    }
    Response::new(command, Json::Object(es))
}

/// Dry-run laws: a dry run answers `{"dry_run": true, "plan": plan}`; the
/// plan of every write names its action and the target as given on the
/// command line; and the answer is fixed by the action, the target and the
/// arguments alone, so it is the same whatever the session holds.
pub proof fn dry_run_laws(action: Seq<char>, id: Option<ObjectId>, name: Option<String>, extra: Seq<(Seq<char>, JsonV)>)
    ensures
        ({
            let plan = action_plan_v(action, given_target_v(id, name), extra);
            &&& get_field(dry_run_data_v(plan), "dry_run"@) == Some(JsonV::Bool(true))
            &&& get_field(dry_run_data_v(plan), "plan"@) == Some(plan)
            &&& get_field(plan, "action"@) == Some(JsonV::Str(action))
            &&& get_field(plan, "target"@) == Some(given_target_v(id, name))
        }),
{
    reveal_strlit("dry_run");
    reveal_strlit("plan");
    reveal_strlit("action");
    reveal_strlit("target");
    let plan = action_plan_v(action, given_target_v(id, name), extra);
    let d = dry_run_data_v(plan)->Object_0;
    lemma_first_key_at(d, "dry_run"@, 0);
    assert(d[0].0 != "plan"@) by {
        assert(d[0].0.len() != "plan"@.len());
    }
    lemma_first_key_at(d, "plan"@, 1);
    let es = plan->Object_0;
    lemma_first_key_at(es, "action"@, 0);
    assert(es[0].0 != "target"@) by {
        assert(es[0].0[0] != "target"@[0]);
    }
    lemma_first_key_at(es, "target"@, 1);
}

/// Global flags shared by every subcommand.
#[derive(Debug)]
pub struct GlobalArgs {
    /// Machine-readable JSON output (alias for `--format json`).
    pub json: bool,
    /// Output format (explore = interactive interface).
    pub format: Option<Format>,
    /// Restrict output records to these fields.
    pub fields: Option<Vec<String>>,
    /// Emit the action plan and make no changes.
    pub dry_run: bool,
    /// Diagnostic output to stderr.
    pub verbose: bool,
    /// Suppress non-error stderr.
    pub quiet: bool,
    /// When to use color (accepted for compatibility).
    pub color: Option<ColorWhen>,
    /// Disable color.
    pub no_color: bool,
    /// Render absolute time (output is always ISO 8601 UTC regardless).
    pub absolute_time: bool,
    /// NUL-terminate output.
    pub print0: bool,
    /// Skip confirmation in non-interactive mode.
    pub yes: bool,
    /// Alias for `yes`.
    pub force: bool,
}

/// Device subcommands.
#[derive(Debug)]
pub enum DeviceCmd {
    /// List devices.
    List,
    /// Show one device.
    Get { target: DeviceTarget },
    /// Switch a device to a profile by index.
    SetProfile { target: DeviceTarget, profile: i32 },
}

/// Link subcommands.
#[derive(Debug, Clone, Copy)]
pub enum LinkCmd {
    /// List links.
    List,
}

/// Metadata subcommands.
#[derive(Debug)]
pub enum MetadataCmd {
    /// List metadata objects.
    List,
    /// Show one metadata object by name.
    Get { name: String },
}

/// Server subcommands.
#[derive(Debug, Clone, Copy)]
pub enum ServerCmd {
    /// Show default sink/source, object counts, and remote.
    Info,
}

/// Every command of the command line, without its arguments.
#[derive(Debug, Clone, Copy, PartialEq, Eq, Structural)]
pub enum Verb {
    NodeList,
    NodeGet,
    NodeSetVolume,
    NodeBalance,
    NodeMute,
    NodeSetDefault,
    DeviceList,
    DeviceGet,
    DeviceSetProfile,
    LinkList,
    MetadataList,
    MetadataGet,
    ServerInfo,
    Schema,
    Describe,
}

/// The noun-verb name of a command.
pub open spec fn verb_name_v(v: Verb) -> Seq<char> {
    match v {
        Verb::NodeList => "node list"@,
        Verb::NodeGet => "node get"@,
        Verb::NodeSetVolume => "node set-volume"@,
        Verb::NodeBalance => "node balance"@,
        Verb::NodeMute => "node mute"@,
        Verb::NodeSetDefault => "node set-default"@,
        Verb::DeviceList => "device list"@,
        Verb::DeviceGet => "device get"@,
        Verb::DeviceSetProfile => "device set-profile"@,
        Verb::LinkList => "link list"@,
        Verb::MetadataList => "metadata list"@,
        Verb::MetadataGet => "metadata get"@,
        Verb::ServerInfo => "server info"@,
        Verb::Schema => "schema"@,
        Verb::Describe => "describe"@,
    }
}

/// The noun-verb name of a command.
pub fn verb_name(v: Verb) -> (r: &'static str)
    ensures
        r@ == verb_name_v(v),
{
    match v {
        Verb::NodeList => "node list",
        Verb::NodeGet => "node get",
        Verb::NodeSetVolume => "node set-volume",
        Verb::NodeBalance => "node balance",
        Verb::NodeMute => "node mute",
        Verb::NodeSetDefault => "node set-default",
        Verb::DeviceList => "device list",
        Verb::DeviceGet => "device get",
        Verb::DeviceSetProfile => "device set-profile",
        Verb::LinkList => "link list",
        Verb::MetadataList => "metadata list",
        Verb::MetadataGet => "metadata get",
        Verb::ServerInfo => "server info",
        Verb::Schema => "schema",
        Verb::Describe => "describe",
    }
}

/// The label a command is reported under: `wiremix <noun> <verb>`.
pub fn command_label(v: Verb) -> (r: String)
    ensures
        r@ == "wiremix "@ + verb_name_v(v),
{
    let mut s = String::from_str("wiremix ");
    s.append(verb_name(v));
    s
}

/// The mode a one-shot command reports in: the resolved mode; when the
/// interactive interface was asked for, JSON with `--json`, else human.
pub open spec fn one_shot_mode_v(resolved: Resolved, json: bool) -> Mode {
    match resolved {
        Resolved::Output(m) => m,
        Resolved::Tui => if json {
            Mode::Json
        } else {
            Mode::Human
        },
    }
}

/// The mode a one-shot command reports in.
pub fn one_shot_mode(resolved: Resolved, json: bool) -> (r: Mode)
    ensures
        r == one_shot_mode_v(resolved, json),
{
    match resolved {
        Resolved::Output(m) => m,
        Resolved::Tui => if json {
            Mode::Json
        } else {
            Mode::Human
        },
    }
}

/// The usage error for `--format explore` given with a subcommand.
pub fn explore_with_subcommand() -> (r: AppError)
    ensures
        r@ == error_v(
            ErrorCode::Usage,
            "`--format explore` is the interactive TUI and cannot be combined with a subcommand"@,
            Some("wiremix"@),
        ),
{
    AppError::usage("`--format explore` is the interactive TUI and cannot be combined with a subcommand").with_hint("wiremix")
}

/// How a volume change is carried out.
#[derive(Debug, Clone, Copy, PartialEq, Eq, Structural)]
pub enum VolumePlan {
    /// One percentage for every channel.
    Uniform,
    /// One percentage per channel.
    PerChannel,
}

/// The hint pointing at one node.
pub open spec fn node_get_hint(id: ObjectId) -> Seq<char> {
    "wiremix node get "@ + decimal(id.0 as nat) + " --json"@
}

/// How setting the volume of node `id` with `channels` channels to `given`
/// percentages goes: a node without channels and a percentage above the
/// enforced maximum (`exceeded_max` holds the maximum's text) are
/// conflicts; one percentage sets every channel; otherwise there must be
/// one per channel. Every error hints at the command that shows the node.
pub open spec fn plan_set_volume_v(id: ObjectId, channels: nat, given: nat, exceeded_max: Option<Seq<char>>) -> Result<VolumePlan, ErrorV> {
    if channels == 0 {
        Err(
            error_v(
                ErrorCode::Conflict,
                "node "@ + decimal(id.0 as nat) + " has no controllable channels"@,
                Some(node_get_hint(id)),
            ),
        )
    } else if exceeded_max is Some {
        Err(
            error_v(
                ErrorCode::Conflict,
                "volume exceeds max-volume-percent "@ + exceeded_max->0,
                Some(node_get_hint(id)),
            ),
        )
    } else if given == 1 {
        Ok(VolumePlan::Uniform)
    } else if given != channels {
        Err(
            error_v(
                ErrorCode::Usage,
                "node "@ + decimal(id.0 as nat) + " has "@ + decimal(channels) + " channels but "@ + decimal(given)
                    + " volumes were given"@,
                Some(node_get_hint(id)),
            ),
        )
    } else {
        Ok(VolumePlan::PerChannel)
    }
}

fn node_get_hint_text(id: ObjectId) -> (r: String)
    ensures
        r@ == node_get_hint(id),
{
    let mut h = String::from_str("wiremix node get ");
    let digits = decimal_text(id.0 as u64);
    h.append(digits.as_str());
    h.append(" --json");
    h
}

/// Decide how to set the volume of node `id`; `exceeded_max` is the text of
/// the enforced maximum when a requested percentage is above it.
pub fn plan_set_volume(id: ObjectId, channels: usize, given: usize, exceeded_max: Option<&str>) -> (r: Result<VolumePlan, AppError>)
    ensures
        result_view(r) == plan_set_volume_v(id, channels as nat, given as nat, crate::cli::output::opt_text(exceeded_max)),
{
    if channels == 0 {
        let mut m = String::from_str("node ");
        let digits = decimal_text(id.0 as u64);
        m.append(digits.as_str());
        m.append(" has no controllable channels");
        let hint = node_get_hint_text(id);
        return Err(AppError::new(ErrorCode::Conflict, m.as_str()).with_hint(hint.as_str()));
    }
    if let Some(max) = exceeded_max {
        let mut m = String::from_str("volume exceeds max-volume-percent ");
        m.append(max);
        let hint = node_get_hint_text(id);
        return Err(AppError::new(ErrorCode::Conflict, m.as_str()).with_hint(hint.as_str()));
    }
    if given == 1 {
        return Ok(VolumePlan::Uniform);
    }
    if given != channels {
        let mut m = String::from_str("node ");
        let id_text = decimal_text(id.0 as u64);
        m.append(id_text.as_str());
        m.append(" has ");
        let channels_text = decimal_text(channels as u64);
        m.append(channels_text.as_str());
        m.append(" channels but ");
        let given_text = decimal_text(given as u64);
        m.append(given_text.as_str());
        m.append(" volumes were given");
        let hint = node_get_hint_text(id);
        return Err(AppError::usage(m.as_str()).with_hint(hint.as_str()));
    }
    Ok(VolumePlan::PerChannel)
}

/// What a uniform volume change reports: success when the session took
/// the change, else a conflict hinting at the command that shows the node.
pub open spec fn uniform_volume_outcome_v(id: ObjectId, accepted: bool) -> Result<(), ErrorV> {
    if accepted {
        Ok(())
    } else {
        Err(error_v(ErrorCode::Conflict, "volume change rejected"@, Some(node_get_hint(id))))
    }
}

/// Report a uniform volume change of node `id`, given whether the session
/// took it.
pub fn uniform_volume_outcome(id: ObjectId, accepted: bool) -> (r: Result<(), AppError>)
    ensures
        result_view(r) == uniform_volume_outcome_v(id, accepted),
{
    if accepted {
        Ok(())
    } else {
        let hint = node_get_hint_text(id);
        Err(AppError::new(ErrorCode::Conflict, "volume change rejected").with_hint(hint.as_str()))
    }
}

/// Where a node's channel volumes are sent.
#[derive(Debug, Clone, Copy, PartialEq, Eq, Structural)]
pub enum VolumeRoute {
    /// To the device route backing the node: device, route index, route
    /// device.
    Device(ObjectId, i32, i32),
    /// To the node itself.
    Node(ObjectId),
}

/// A device endpoint's volumes go to its device route; any other node's go
/// to the node.
pub open spec fn volume_route_v(n: Node) -> VolumeRoute {
    match n.device_info {
        Some((device, route_index, route_device)) => VolumeRoute::Device(device, route_index, route_device),
        None => VolumeRoute::Node(n.object_id),
    }
}

/// Where the channel volumes of `node` are sent.
pub fn volume_route(node: &Node) -> (r: VolumeRoute)
    ensures
        r == volume_route_v(*node),
{
    match node.device_info {
        Some((device, route_index, route_device)) => VolumeRoute::Device(device, route_index, route_device),
        None => VolumeRoute::Node(node.object_id),
    }
}

/// Balance needs a stereo node.
pub open spec fn check_balance_v(id: ObjectId, channels: nat) -> Result<(), ErrorV> {
    if channels != 2 {
        Err(
            error_v(
                ErrorCode::Usage,
                "node "@ + decimal(id.0 as nat) + " is not stereo; balance needs a 2-channel node"@,
                Some(node_get_hint(id)),
            ),
        )
    } else {
        Ok(())
    }
}

/// Check that node `id` with `channels` channels can take a balance.
pub fn check_balance(id: ObjectId, channels: usize) -> (r: Result<(), AppError>)
    ensures
        result_view(r) == check_balance_v(id, channels as nat),
{
    if channels != 2 {
        let mut m = String::from_str("node ");
        let digits = decimal_text(id.0 as u64);
        m.append(digits.as_str());
        m.append(" is not stereo; balance needs a 2-channel node");
        let hint = node_get_hint_text(id);
        return Err(AppError::usage(m.as_str()).with_hint(hint.as_str()));
    }
    Ok(())
}

/// A node can be made the default sink when it is a sink, else the default
/// source when it is a source; other nodes cannot.
pub open spec fn default_kind_v(id: ObjectId, is_sink: bool, is_source: bool) -> Result<DeviceKind, ErrorV> {
    if is_sink {
        Ok(DeviceKind::Sink)
    } else if is_source {
        Ok(DeviceKind::Source)
    } else {
        Err(
            error_v(
                ErrorCode::Usage,
                "node "@ + decimal(id.0 as nat) + " is not a sink or source; only devices can be set as default"@,
                Some("wiremix node list --json"@),
            ),
        )
    }
}

/// Which default node `id` can be made, given whether its media class is
/// a sink or a source.
pub fn default_kind(id: ObjectId, is_sink: bool, is_source: bool) -> (r: Result<DeviceKind, AppError>)
    ensures
        result_view(r) == default_kind_v(id, is_sink, is_source),
{
    if is_sink {
        Ok(DeviceKind::Sink)
    } else if is_source {
        Ok(DeviceKind::Source)
    } else {
        let mut m = String::from_str("node ");
        let digits = decimal_text(id.0 as u64);
        m.append(digits.as_str());
        m.append(" is not a sink or source; only devices can be set as default");
        Err(AppError::usage(m.as_str()).with_hint("wiremix node list --json"))
    }
}

/// Whether a target is the profile with index `profile`.
pub open spec fn is_profile_index(t: Target, profile: i32) -> bool {
    match t {
        Target::Profile(_, index) => index == profile,
        _ => false,
    }
}

/// Whether a device offers a profile with index `profile`.
pub open spec fn has_profile(d: Device, profile: i32) -> bool {
    exists|i: int| 0 <= i < d.profiles@.len() && is_profile_index((#[trigger] d.profiles@[i]).0, profile)
}

/// Switching device `d` to a profile needs that profile to exist.
pub open spec fn check_profile_v(d: Device, profile: i32) -> Result<(), ErrorV> {
    if has_profile(d, profile) {
        Ok(())
    } else {
        Err(
            error_v(
                ErrorCode::NotFound,
                "device "@ + decimal(d.object_id.0 as nat) + " has no profile index "@ + signed_decimal(profile as int),
                Some("wiremix device get "@ + decimal(d.object_id.0 as nat) + " --json"@),
            ),
        )
    }
}

/// Check that `device` offers profile index `profile`.
pub fn check_profile(device: &Device, profile: i32) -> (r: Result<(), AppError>)
    ensures
        result_view(r) == check_profile_v(*device, profile),
{
    let mut i: usize = 0;
    while i < device.profiles.len()
        invariant
            i <= device.profiles@.len(),
            forall|j: int| 0 <= j < i ==> !is_profile_index((#[trigger] device.profiles@[j]).0, profile),
        decreases device.profiles@.len() - i,
    {
        match device.profiles[i].0 {
            Target::Profile(_, index) => {
                if index == profile {
                    return Ok(());
                }
            },
            _ => {},
        }
        i += 1;
    }
    let id = device.object_id.0;
    let mut m = String::from_str("device ");
    let digits = decimal_text(id as u64);
    m.append(digits.as_str());
    m.append(" has no profile index ");
    let index_text = signed_decimal_text(profile as i64);
    m.append(index_text.as_str());
    let mut h = String::from_str("wiremix device get ");
    h.append(digits.as_str());
    h.append(" --json");
    Err(AppError::not_found(m.as_str()).with_hint(h.as_str()))
}

/// The metadata objects of a session for machine output, in order.
pub fn metadata_list(state: &State) -> (r: Vec<MetadataDto>)
    ensures
        r@.len() == state.metadatas@.len(),
        forall|i: int| 0 <= i < r@.len() ==> metadata_projects(state.metadatas@[i], #[trigger] r@[i]),
{
    let mut out: Vec<MetadataDto> = Vec::new();
    let mut i: usize = 0;
    while i < state.metadatas.len()
        invariant
            i <= state.metadatas@.len(),
            out@.len() == i,
            forall|k: int| 0 <= k < i ==> metadata_projects(state.metadatas@[k], #[trigger] out@[k]),
        decreases state.metadatas@.len() - i,
    {
        out.push(MetadataDto::from(&state.metadatas[i]));
        i += 1;
    }
    out
}

/// The first metadata object named `name`, if any.
pub open spec fn metadata_named(state: State, name: Seq<char>) -> Option<Metadata> {
    if exists|i: int| 0 <= i < state.metadatas@.len() && first_named(state.metadatas@, name, i) {
        Some(state.metadatas@[choose|i: int| 0 <= i < state.metadatas@.len() && first_named(state.metadatas@, name, i)])
    } else {
        None
    }
}

/// `i` is the first metadata object named `name`.
pub open spec fn first_named(ms: Seq<Metadata>, name: Seq<char>, i: int) -> bool {
    &&& 0 <= i < ms.len()
    &&& crate::cli::error::opt_view(ms[i].metadata_name) == Some(name)
    &&& forall|j: int| 0 <= j < i ==> crate::cli::error::opt_view(ms[j].metadata_name) != Some(name)
}

/// Show the metadata object named `name`: the first one so named, or a
/// not-found error hinting at the list.
pub fn metadata_get(state: &State, name: &str) -> (r: Result<MetadataDto, AppError>)
    ensures
        match r {
            Ok(d) => metadata_named(*state, name@) matches Some(m) && metadata_projects(m, d),
            Err(e) => metadata_named(*state, name@) is None && e@ == error_v(
                ErrorCode::NotFound,
                "no metadata named "@ + debug_quoted(name@),
                Some("wiremix metadata list --json"@),
            ),
        },
{
    let mut i: usize = 0;
    while i < state.metadatas.len()
        invariant
            i <= state.metadatas@.len(),
            forall|j: int| 0 <= j < i ==> crate::cli::error::opt_view(state.metadatas@[j].metadata_name) != Some(name@),
        decreases state.metadatas@.len() - i,
    {
        let named = match &state.metadatas[i].metadata_name {
            Some(n) => same(n.as_str(), name),
            None => false,
        };
        if named {
            proof {
                assert(first_named(state.metadatas@, name@, i as int));
                let k = choose|k: int| 0 <= k < state.metadatas@.len() && first_named(state.metadatas@, name@, k);
                if k < i {
                    assert(crate::cli::error::opt_view(state.metadatas@[k].metadata_name) != Some(name@));
                } else if k > i {
                    assert(crate::cli::error::opt_view(state.metadatas@[i as int].metadata_name) == Some(name@));
                }
            }
            return Ok(MetadataDto::from(&state.metadatas[i]));
        }
        i += 1;
    }
    let quoted = quote_debug(name);
    let mut m = String::from_str("no metadata named ");
    m.append(quoted.as_str());
    Err(AppError::not_found(m.as_str()).with_hint("wiremix metadata list --json"))
}

/// The tokens that name the current defaults.
pub open spec fn is_default_token(name: Seq<char>) -> bool {
    name == "@DEFAULT_SINK@"@ || name == "@DEFAULT_SOURCE@"@
}

/// Resolution laws for nodes: an existing id resolves to itself; an unknown
/// id is a not-found error (exit code 3); a name other than a default token
/// resolves only to a listed, existing node that matches it, and only when
/// no other listed node does.
pub proof fn node_resolution_laws(v: SessionView, t: NodeTarget)
    ensures
        t.id is Some && node_for(v, t.id->0) is Some ==> resolve_node_v(v, t) == Ok::<ObjectId, ErrorV>(t.id->0),
        t.id is Some && node_for(v, t.id->0) is None ==> (resolve_node_v(v, t) matches Err(e) && e.code == ErrorCode::NotFound
            && crate::cli::error::exit_number(exit_for(e.code)) == 3),
        t.id is None && !is_default_token(name_or_empty(t.name)) && resolve_node_v(v, t) is Ok ==> ({
            let id = resolve_node_v(v, t)->Ok_0;
            let needle = lowercase(name_or_empty(t.name));
            &&& v.nodes_all@.contains(id)
            &&& node_for(v, id) matches Some(n) && node_matches(n, needle)
            &&& node_hits(v, needle) == seq![id]
        }),
{
    broadcast use vstd::seq_lib::group_filter_ensures;
    if t.id is None && !is_default_token(name_or_empty(t.name)) && resolve_node_v(v, t) is Ok {
        let needle = lowercase(name_or_empty(t.name));
        let hits = node_hits(v, needle);
        assert(hits.len() == 1);
        v.nodes_all@.lemma_filter_pred(node_hit(v, needle), 0);
        assert(hits.contains(hits[0]));
        v.nodes_all@.lemma_filter_contains_rev(node_hit(v, needle), hits[0]);
        assert(hits =~= seq![hits[0]]);
    }
}

/// Resolution laws for devices: an existing id resolves to itself; an
/// unknown id is a not-found error (exit code 3); a name resolves only to a
/// listed, existing device whose title matches it, and only when no other
/// listed device does.
pub proof fn device_resolution_laws(v: SessionView, t: DeviceTarget)
    ensures
        t.id is Some && device_for(v, t.id->0) is Some ==> resolve_device_v(v, t) == Ok::<ObjectId, ErrorV>(t.id->0),
        t.id is Some && device_for(v, t.id->0) is None ==> (resolve_device_v(v, t) matches Err(e) && e.code == ErrorCode::NotFound
            && crate::cli::error::exit_number(exit_for(e.code)) == 3),
        t.id is None && resolve_device_v(v, t) is Ok ==> ({
            let id = resolve_device_v(v, t)->Ok_0;
            let needle = lowercase(name_or_empty(t.name));
            &&& v.devices_all@.contains(id)
            &&& device_for(v, id) matches Some(d) && device_matches(d, needle)
            &&& device_hits(v, needle) == seq![id]
        }),
{
    broadcast use vstd::seq_lib::group_filter_ensures;
    if t.id is None && resolve_device_v(v, t) is Ok {
        let needle = lowercase(name_or_empty(t.name));
        let hits = device_hits(v, needle);
        assert(hits.len() == 1);
        v.devices_all@.lemma_filter_pred(device_hit(v, needle), 0);
        assert(hits.contains(hits[0]));
        v.devices_all@.lemma_filter_contains_rev(device_hit(v, needle), hits[0]);
        assert(hits =~= seq![hits[0]]);
    }
}

/// Every error the command line reports carries a hint: resolving a node or
/// a device, planning a volume change and reporting it, balancing, making a
/// default, switching a profile, connecting, and reading the clock.
pub proof fn errors_carry_hints(
    v: SessionView,
    node: NodeTarget,
    device: DeviceTarget,
    id: ObjectId,
    channels: nat,
    given: nat,
    exceeded_max: Option<Seq<char>>,
    accepted: bool,
    is_sink: bool,
    is_source: bool,
    d: Device,
    profile: i32,
    event: OpenEvent,
)
    ensures
        resolve_node_v(v, node) matches Err(e) ==> e.hint is Some,
        resolve_device_v(v, device) matches Err(e) ==> e.hint is Some,
        plan_set_volume_v(id, channels, given, exceeded_max) matches Err(e) ==> e.hint is Some,
        uniform_volume_outcome_v(id, accepted) matches Err(e) ==> e.hint is Some,
        check_balance_v(id, channels) matches Err(e) ==> e.hint is Some,
        default_kind_v(id, is_sink, is_source) matches Err(e) ==> e.hint is Some,
        check_profile_v(d, profile) matches Err(e) ==> e.hint is Some,
        open_step_v(event) matches Err(e) ==> e.hint is Some,
        node_not_found_v(id).hint is Some,
        device_not_found_v(id).hint is Some,
        clock_error_v().hint is Some,
{
}

/// Volume laws: a node without channels is a conflict; with channels, any
/// percentage above the enforced maximum is a conflict naming that maximum,
/// however many percentages were given; a plan is made only when no
/// maximum was exceeded; one percentage sets every channel, and a
/// per-channel plan has exactly one percentage per channel; any other
/// count is a usage error.
pub proof fn plan_set_volume_laws(id: ObjectId, channels: nat, given: nat, exceeded_max: Option<Seq<char>>)
    ensures
        channels == 0 ==> (plan_set_volume_v(id, channels, given, exceeded_max) matches Err(e) && e.code == ErrorCode::Conflict),
        channels > 0 && exceeded_max is Some ==> (plan_set_volume_v(id, channels, given, exceeded_max) matches Err(e) && e.code
            == ErrorCode::Conflict && e.message == "volume exceeds max-volume-percent "@ + exceeded_max->0),
        plan_set_volume_v(id, channels, given, exceeded_max) is Ok ==> exceeded_max is None && channels > 0,
        plan_set_volume_v(id, channels, given, exceeded_max) == Ok::<VolumePlan, ErrorV>(VolumePlan::Uniform) <==> (
        channels > 0 && exceeded_max is None && given == 1),
        plan_set_volume_v(id, channels, given, exceeded_max) == Ok::<VolumePlan, ErrorV>(VolumePlan::PerChannel) <==> (
        channels > 0 && exceeded_max is None && given != 1 && given == channels),
        channels > 0 && exceeded_max is None && given != 1 && given != channels ==> (plan_set_volume_v(
            id,
            channels,
            given,
            exceeded_max,
        ) matches Err(e) && e.code == ErrorCode::Usage),
{
}

/// Balance laws: only a stereo node takes a balance; every other channel
/// count, fewer or more, is a usage error.
pub proof fn check_balance_laws(id: ObjectId, channels: nat)
    ensures
        check_balance_v(id, channels) is Ok <==> channels == 2,
        channels != 2 ==> (check_balance_v(id, channels) matches Err(e) && e.code == ErrorCode::Usage),
{
}

/// Profile laws: switching is allowed exactly when some entry of the
/// device's selectable targets, at any position, is a profile with the
/// requested index; otherwise it is a not-found error.
pub proof fn check_profile_laws(d: Device, profile: i32)
    ensures
        check_profile_v(d, profile) is Ok <==> exists|i: int|
            0 <= i < d.profiles@.len() && ((#[trigger] d.profiles@[i]).0 matches Target::Profile(_, index) && index == profile),
        check_profile_v(d, profile) is Err ==> (check_profile_v(d, profile) matches Err(e) && e.code == ErrorCode::NotFound),
        forall|i: int|
            0 <= i < d.profiles@.len() && (#[trigger] d.profiles@[i]).0 == Target::Profile(d.object_id, profile) ==> check_profile_v(
                d,
                profile,
            ) is Ok,
{
    if check_profile_v(d, profile) is Ok {
        let i = choose|i: int| 0 <= i < d.profiles@.len() && is_profile_index((#[trigger] d.profiles@[i]).0, profile);
        assert(d.profiles@[i].0 matches Target::Profile(_, index) && index == profile);
    }
    if exists|i: int| 0 <= i < d.profiles@.len() && ((#[trigger] d.profiles@[i]).0 matches Target::Profile(_, index) && index == profile) {
        let i = choose|i: int| 0 <= i < d.profiles@.len() && ((#[trigger] d.profiles@[i]).0 matches Target::Profile(_, index) && index == profile);
        assert(is_profile_index(d.profiles@[i].0, profile));
    }
    assert forall|i: int| 0 <= i < d.profiles@.len() && (#[trigger] d.profiles@[i]).0 == Target::Profile(d.object_id, profile) implies check_profile_v(d, profile) is Ok by {
        assert(is_profile_index(d.profiles@[i].0, profile));
    }
}

} // verus!
