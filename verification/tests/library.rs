//! Tests of the library on concrete values.

use wiremix::capture::{CaptureAction, CaptureEligibility, CaptureTarget, Capturing};
use wiremix::cli::dto::{device_list, link_list, node_kind, node_list, DeviceDto, MetadataDto, NodeDto, ServerInfoDto};
use wiremix::cli::error::{AppError, ErrorCode, ExitCode};
use wiremix::cli::oneshot::{connect_failed, open_step, remaining, OpenEvent, OpenStep, Settle, SettleEvent};
use wiremix::cli::output::{agent_env, env_true, output_records, project_fields, resolve, terminator, Format, Mode, Resolved};
use wiremix::cli::schema::{commands, describe, global_flag_table, schema};
use wiremix::cli::{
    check_balance, check_profile, command_label, default_kind, device_not_found, dry_run, error_envelope,
    explore_with_subcommand, metadata_get, metadata_list, mute_desired, mute_plan, mute_should_toggle, node_not_found,
    one_shot_mode, plan_set_volume, resolve_device, resolve_node, set_default_plan, set_profile_plan, target_json,
    volume_route, DeviceTarget, NodeTarget, Verb, VolumePlan, VolumeRoute,
};
use wiremix::device_kind::DeviceKind;
use wiremix::json::Json;
use wiremix::tabs::{current_tab, project, tab_info, tab_title, ListKind, NodeKind, TabKind};
use wiremix::text::{contains, decimal_text, same, signed_decimal_text, text_less};
use wiremix::view::{Device, Node, SessionView, Target};
use wiremix::wirehose::graph::{node_title, route_index, stream_peer};
use wiremix::wirehose::media_class::{is_sink, is_sink_input, is_source, is_source_output};
use wiremix::wirehose::object_id::ObjectId;
use wiremix::wirehose::state::{Link, Metadata, State};

fn s(t: &str) -> String {
    t.to_string()
}

fn obj(entries: Vec<(&str, Json)>) -> Json {
    Json::Object(entries.into_iter().map(|(k, v)| (k.to_string(), v)).collect())
}

fn text(t: &str) -> Json {
    Json::Str(s(t))
}

fn node(id: u32, name: &str, title: &str, class: &str) -> Node {
    Node {
        object_id: ObjectId(id),
        object_serial: 100 + id as u64,
        name: s(name),
        title: s(title),
        media_class: s(class),
        channel_percents: vec![50, 70],
        mean_percent: 61,
        mute: false,
        is_default_sink: false,
        is_default_source: false,
        target_title: s(""),
        client_id: None,
        target: None,
        targets: Vec::new(),
        peak_percents: Vec::new(),
        device_info: None,
    }
}

fn device(id: u32, title: &str) -> Device {
    Device {
        object_id: ObjectId(id),
        object_serial: 200 + id as u64,
        title: s(title),
        target: Some(Target::Profile(ObjectId(id), 1)),
        target_title: s("Analog Stereo"),
        profiles: vec![
            (Target::Profile(ObjectId(id), 0), s("Off")),
            (Target::Route(ObjectId(id), 0, 0), s("Speakers")),
            (Target::Profile(ObjectId(id), 1), s("Analog Stereo")),
        ],
    }
}

fn sample_view() -> SessionView {
    SessionView {
        nodes: vec![
            node(40, "alsa_output.speaker", "Speakers", "Audio/Sink"),
            node(41, "alsa_input.mic", "Microphone", "Audio/Source"),
            node(42, "firefox", "Firefox Speaker Test", "Stream/Output/Audio"),
        ],
        devices: vec![device(50, "Built-in Audio"), device(51, "USB Audio Interface")],
        nodes_all: vec![ObjectId(40), ObjectId(41), ObjectId(42)],
        nodes_playback: vec![ObjectId(42)],
        nodes_recording: vec![],
        nodes_output: vec![ObjectId(40)],
        nodes_input: vec![ObjectId(41)],
        devices_all: vec![ObjectId(50), ObjectId(51)],
        default_sink: Some(Target::Node(ObjectId(40))),
        default_source: None,
    }
}

fn by_id(id: u32) -> NodeTarget {
    NodeTarget { id: Some(ObjectId(id)), name: None }
}

fn by_name(name: &str) -> NodeTarget {
    NodeTarget { id: None, name: Some(s(name)) }
}

// ---- text ----

#[test]
fn text_equality_and_search() {
    assert!(same("abc", "abc"));
    assert!(!same("abc", "abd"));
    assert!(!same("abc", "ab"));
    assert!(contains("hello world", "o w"));
    assert!(contains("hello", ""));
    assert!(!contains("hello", "hellos"));
    assert!(contains("ünïcode", "nïc"));
}

#[test]
fn text_order_is_code_point_order() {
    assert!(text_less("a", "b"));
    assert!(text_less("ab", "abc"));
    assert!(!text_less("abc", "ab"));
    assert!(!text_less("abc", "abc"));
    assert!(text_less("Z", "a"));
    assert!(text_less("z", "é"));
}

#[test]
fn decimal_rendering() {
    assert_eq!(decimal_text(0), "0");
    assert_eq!(decimal_text(7), "7");
    assert_eq!(decimal_text(1234567890), "1234567890");
    assert_eq!(decimal_text(u64::MAX), "18446744073709551615");
    assert_eq!(signed_decimal_text(-12), "-12");
    assert_eq!(signed_decimal_text(i64::MIN), "-9223372036854775808");
    assert_eq!(signed_decimal_text(5), "5");
}

// ---- errors ----

#[test]
fn exit_codes_are_the_canonical_numbers() {
    assert_eq!(ExitCode::Success.code(), 0);
    assert_eq!(ExitCode::Failure.code(), 1);
    assert_eq!(ExitCode::Usage.code(), 2);
    assert_eq!(ExitCode::NotFound.code(), 3);
    assert_eq!(ExitCode::Permission.code(), 4);
    assert_eq!(ExitCode::Conflict.code(), 5);
    for code in [
        ErrorCode::Usage,
        ErrorCode::NotFound,
        ErrorCode::Permission,
        ErrorCode::Conflict,
        ErrorCode::Unavailable,
        ErrorCode::Timeout,
        ErrorCode::Internal,
    ] {
        assert_ne!(code.exit(), ExitCode::Success);
    }
    assert_eq!(ErrorCode::Timeout.exit(), ExitCode::Failure);
    assert_eq!(ErrorCode::Internal.exit(), ExitCode::Failure);
    assert_eq!(ErrorCode::Permission.exit(), ExitCode::Permission);
    assert_eq!(ErrorCode::Conflict.exit(), ExitCode::Conflict);
}

#[test]
fn wire_names_are_screaming_snake_case() {
    assert_eq!(ErrorCode::NotFound.wire(), "NOT_FOUND");
    assert_eq!(ErrorCode::Unavailable.wire(), "UNAVAILABLE");
    assert_eq!(ErrorCode::Usage.wire(), "USAGE");
}

#[test]
fn error_with_hint_renders_hint_line() {
    let e = AppError::not_found("no node with id 9").with_hint("wiremix node list --json");
    assert_eq!(e.code, ErrorCode::NotFound);
    assert_eq!(e.render(), "no node with id 9\nhint: wiremix node list --json");
    assert_eq!(AppError::usage("bad").render(), "bad");
}

#[test]
fn not_found_errors_name_the_id() {
    let e = node_not_found(ObjectId(77));
    assert_eq!(e.message, "no node with id 77");
    assert_eq!(e.hint.as_deref(), Some("wiremix node list --json"));
    let e = device_not_found(ObjectId(5));
    assert_eq!(e.message, "no device with id 5");
    assert_eq!(e.hint.as_deref(), Some("wiremix device list --json"));
}

#[test]
fn error_envelope_shape() {
    let e = AppError::not_found("no node with id 9").with_hint("wiremix node list --json");
    let env = error_envelope(&e, "wiremix node get", "2026-01-02T03:04:05Z");
    let inner = env.get("error").expect("error object");
    assert_eq!(inner.get("code"), Some(&text("NOT_FOUND")));
    assert_eq!(inner.get("exit_code"), Some(&Json::Int(3)));
    assert_eq!(e.exit_code().code(), 3);
    assert_eq!(inner.get("message"), Some(&text("no node with id 9")));
    assert_eq!(inner.get("hint"), Some(&text("wiremix node list --json")));
    assert_eq!(inner.get("timestamp"), Some(&text("2026-01-02T03:04:05Z")));
    assert_eq!(inner.get("command"), Some(&text("wiremix node get")));
    assert_eq!(inner.get("docs_url"), Some(&text("https://Wiremix.SpacecraftSoftware.org/")));
    let env = error_envelope(&AppError::usage("x"), "wiremix", "t");
    assert_eq!(env.get("error").and_then(|e| e.get("hint")), Some(&Json::Null));
    assert_eq!(env.get("error").and_then(|e| e.get("exit_code")), Some(&Json::Int(2)));
}

// ---- resolution ----

#[test]
fn resolve_node_by_id() {
    let view = sample_view();
    assert_eq!(resolve_node(&view, &by_id(41)).unwrap(), ObjectId(41));
    let err = resolve_node(&view, &by_id(99)).unwrap_err();
    assert_eq!(err.code, ErrorCode::NotFound);
    assert_eq!(err.exit_code().code(), 3);
    assert_eq!(err.message, "no node with id 99");
}

#[test]
fn resolve_node_by_name_is_case_insensitive() {
    let view = sample_view();
    assert_eq!(resolve_node(&view, &by_name("MICRO")).unwrap(), ObjectId(41));
    assert_eq!(resolve_node(&view, &by_name("firefox")).unwrap(), ObjectId(42));
}

#[test]
fn resolve_node_ambiguous_and_missing() {
    let view = sample_view();
    let err = resolve_node(&view, &by_name("speaker")).unwrap_err();
    assert_eq!(err.code, ErrorCode::Conflict);
    assert_eq!(err.message, "multiple nodes match name \"speaker\"; use an id");
    assert_eq!(err.hint.as_deref(), Some("wiremix node list --json"));
    let err = resolve_node(&view, &by_name("hdmi")).unwrap_err();
    assert_eq!(err.code, ErrorCode::NotFound);
    assert_eq!(err.message, "no node matches name \"hdmi\"");
}

#[test]
fn resolve_node_default_tokens() {
    let view = sample_view();
    assert_eq!(resolve_node(&view, &by_name("@DEFAULT_SINK@")).unwrap(), ObjectId(40));
    let err = resolve_node(&view, &by_name("@DEFAULT_SOURCE@")).unwrap_err();
    assert_eq!(err.message, "no default source is set");
    assert_eq!(err.hint.as_deref(), Some("wiremix server info --json"));
}

#[test]
fn resolve_node_skips_unlisted_and_missing_entries() {
    let mut view = sample_view();
    // 43 is listed but has no node; 40 has a node but is not listed.
    view.nodes_all = vec![ObjectId(43), ObjectId(42)];
    assert_eq!(resolve_node(&view, &by_name("speaker")).unwrap(), ObjectId(42));
}

#[test]
fn resolve_device_by_id_and_name() {
    let view = sample_view();
    let t = DeviceTarget { id: Some(ObjectId(51)), name: None };
    assert_eq!(resolve_device(&view, &t).unwrap(), ObjectId(51));
    let t = DeviceTarget { id: None, name: Some(s("usb")) };
    assert_eq!(resolve_device(&view, &t).unwrap(), ObjectId(51));
    let t = DeviceTarget { id: None, name: Some(s("audio")) };
    let err = resolve_device(&view, &t).unwrap_err();
    assert_eq!(err.code, ErrorCode::Conflict);
    assert_eq!(err.message, "multiple devices match name \"audio\"; use an id");
    let t = DeviceTarget { id: None, name: Some(s("bluetooth")) };
    assert_eq!(resolve_device(&view, &t).unwrap_err().message, "no device matches name \"bluetooth\"");
    let t = DeviceTarget { id: Some(ObjectId(3)), name: None };
    assert_eq!(resolve_device(&view, &t).unwrap_err().message, "no device with id 3");
}

// ---- data-transfer objects ----

#[test]
fn node_kinds_follow_tab_lists() {
    let view = sample_view();
    assert_eq!(node_kind(&view, ObjectId(42)), "playback");
    assert_eq!(node_kind(&view, ObjectId(40)), "output");
    assert_eq!(node_kind(&view, ObjectId(41)), "input");
    assert_eq!(node_kind(&view, ObjectId(9)), "other");
}

#[test]
fn node_dto_projects_every_field() {
    let view = sample_view();
    let mut n = node(40, "alsa_output.speaker", "Speakers", "Audio/Sink");
    n.client_id = Some(ObjectId(12));
    n.mute = true;
    let dto = NodeDto::from(&view, &n);
    assert_eq!(dto.id, 40);
    assert_eq!(dto.serial, 140);
    assert_eq!(dto.name, "alsa_output.speaker");
    assert_eq!(dto.kind, "output");
    assert_eq!(dto.volume_percent, 61);
    assert_eq!(dto.channel_volumes_percent, vec![50, 70]);
    assert_eq!(dto.channels, 2);
    assert!(dto.muted);
    assert_eq!(dto.client_id, Some(12));
    assert!(dto.peaks.is_empty());
    n.peak_percents = vec![12, 80];
    assert_eq!(NodeDto::from(&view, &n).peaks, vec![12, 80]);
}

#[test]
fn lists_hold_every_listed_object_in_order() {
    let mut view = sample_view();
    // An id the view holds no node or device for is skipped.
    view.nodes_all.insert(1, ObjectId(99));
    view.devices_all.push(ObjectId(98));
    let nodes = node_list(&view);
    let ids: Vec<u32> = nodes.iter().map(|n| n.id).collect();
    assert_eq!(ids, vec![40, 41, 42]);
    assert_eq!(nodes[2].kind, "playback");
    let devices = device_list(&view);
    let ids: Vec<u32> = devices.iter().map(|d| d.id).collect();
    assert_eq!(ids, vec![50, 51]);
    assert_eq!(devices[1].title, "USB Audio Interface");
}

#[test]
fn volumes_go_to_the_device_route_when_there_is_one() {
    let mut n = node(40, "alsa_output.speaker", "Speakers", "Audio/Sink");
    assert_eq!(volume_route(&n), VolumeRoute::Node(ObjectId(40)));
    n.device_info = Some((ObjectId(50), 3, 1));
    assert_eq!(volume_route(&n), VolumeRoute::Device(ObjectId(50), 3, 1));
}

#[test]
fn device_dto_lists_only_profiles() {
    let dto = DeviceDto::from(&device(50, "Built-in Audio"));
    assert_eq!(dto.id, 50);
    assert_eq!(dto.active_profile_index, Some(1));
    assert_eq!(dto.active_profile, "Analog Stereo");
    let profiles: Vec<(i32, &str)> = dto.profiles.iter().map(|p| (p.index, p.description.as_str())).collect();
    assert_eq!(profiles, vec![(0, "Off"), (1, "Analog Stereo")]);
    let mut d = device(51, "x");
    d.target = Some(Target::Route(ObjectId(51), 0, 0));
    assert_eq!(DeviceDto::from(&d).active_profile_index, None);
}

#[test]
fn metadata_dto_orders_subjects_and_keys() {
    let m = Metadata {
        object_id: ObjectId(30),
        metadata_name: Some(s("default")),
        properties: vec![
            (7, vec![(s("b"), s("2")), (s("a"), s("1"))]),
            (0, vec![(s("default.audio.sink"), s("{\"name\":\"x\"}")), (s("default.audio.source"), s("y"))]),
            (7, vec![(s("c"), s("3"))]),
        ],
    };
    let dto = MetadataDto::from(&m);
    assert_eq!(dto.id, 30);
    assert_eq!(dto.name.as_deref(), Some("default"));
    assert_eq!(dto.properties.len(), 2);
    assert_eq!(dto.properties[0].0, 0);
    assert_eq!(dto.properties[1].0, 7);
    // The later entry for subject 7 replaces the earlier one.
    assert_eq!(dto.properties[1].1, vec![(s("c"), s("3"))]);
    assert_eq!(dto.properties[0].1[0].0, "default.audio.sink");
    let m = Metadata {
        object_id: ObjectId(31),
        metadata_name: None,
        properties: vec![(1, vec![(s("z"), s("1")), (s("a"), s("2")), (s("z"), s("3")), (s("m"), s("4"))])],
    };
    let dto = MetadataDto::from(&m);
    assert_eq!(dto.properties[0].1, vec![(s("a"), s("2")), (s("m"), s("4")), (s("z"), s("3"))]);
}

fn sample_state() -> State {
    State {
        nodes: vec![ObjectId(40), ObjectId(41), ObjectId(42)],
        devices: vec![ObjectId(50)],
        links: vec![Link { object_id: ObjectId(60), output_id: ObjectId(42), input_id: ObjectId(40) }],
        clients: vec![ObjectId(12), ObjectId(13)],
        metadatas: vec![
            Metadata { object_id: ObjectId(30), metadata_name: Some(s("settings")), properties: vec![] },
            Metadata { object_id: ObjectId(31), metadata_name: Some(s("default")), properties: vec![] },
        ],
    }
}

#[test]
fn server_info_counts_and_defaults() {
    let view = sample_view();
    let state = sample_state();
    let info = ServerInfoDto::from(&view, &state, Some(s("pipewire-0")));
    assert_eq!(info.remote.as_deref(), Some("pipewire-0"));
    let sink = info.default_sink.expect("default sink");
    assert_eq!((sink.id, sink.name.as_str()), (40, "alsa_output.speaker"));
    assert!(info.default_source.is_none());
    assert_eq!(info.counts.nodes, 3);
    assert_eq!(info.counts.devices, 1);
    assert_eq!(info.counts.links, 1);
    assert_eq!(info.counts.clients, 2);
    assert_eq!(info.counts.metadata, 2);
}

#[test]
fn links_and_metadata_lists() {
    let state = sample_state();
    let links = link_list(&state);
    assert_eq!(links.len(), 1);
    assert_eq!((links[0].id, links[0].output_id, links[0].input_id), (60, 42, 40));
    let all = metadata_list(&state);
    assert_eq!(all.iter().map(|m| m.id).collect::<Vec<_>>(), vec![30, 31]);
    assert_eq!(metadata_get(&state, "default").unwrap().id, 31);
    let err = metadata_get(&state, "route").unwrap_err();
    assert_eq!(err.code, ErrorCode::NotFound);
    assert_eq!(err.message, "no metadata named \"route\"");
    assert_eq!(err.hint.as_deref(), Some("wiremix metadata list --json"));
}

// ---- write decisions ----

#[test]
fn volume_plans() {
    let id = ObjectId(42);
    assert_eq!(plan_set_volume(id, 2, 1, None).unwrap(), VolumePlan::Uniform);
    assert_eq!(plan_set_volume(id, 2, 2, None).unwrap(), VolumePlan::PerChannel);
    let e = plan_set_volume(id, 0, 1, None).unwrap_err();
    assert_eq!((e.code, e.message.as_str()), (ErrorCode::Conflict, "node 42 has no controllable channels"));
    assert_eq!(e.hint.as_deref(), Some("wiremix node get 42 --json"));
    let e = plan_set_volume(id, 2, 1, Some("100")).unwrap_err();
    assert_eq!((e.code, e.message.as_str()), (ErrorCode::Conflict, "volume exceeds max-volume-percent 100"));
    assert_eq!(e.hint.as_deref(), Some("wiremix node get 42 --json"));
    let e = plan_set_volume(id, 2, 3, None).unwrap_err();
    assert_eq!(e.code, ErrorCode::Usage);
    assert_eq!(e.message, "node 42 has 2 channels but 3 volumes were given");
    assert_eq!(e.hint.as_deref(), Some("wiremix node get 42 --json"));
}

#[test]
fn balance_needs_stereo() {
    assert!(check_balance(ObjectId(5), 2).is_ok());
    let e = check_balance(ObjectId(5), 1).unwrap_err();
    assert_eq!(e.message, "node 5 is not stereo; balance needs a 2-channel node");
    assert_eq!(e.hint.as_deref(), Some("wiremix node get 5 --json"));
}

#[test]
fn default_kinds() {
    assert_eq!(default_kind(ObjectId(1), true, false).unwrap(), DeviceKind::Sink);
    assert_eq!(default_kind(ObjectId(1), false, true).unwrap(), DeviceKind::Source);
    let e = default_kind(ObjectId(1), false, false).unwrap_err();
    assert_eq!(e.code, ErrorCode::Usage);
    assert_eq!(e.message, "node 1 is not a sink or source; only devices can be set as default");
}

#[test]
fn profiles_must_exist() {
    let d = device(50, "Built-in Audio");
    assert!(check_profile(&d, 1).is_ok());
    let e = check_profile(&d, -1).unwrap_err();
    assert_eq!(e.code, ErrorCode::NotFound);
    assert_eq!(e.message, "device 50 has no profile index -1");
    assert_eq!(e.hint.as_deref(), Some("wiremix device get 50 --json"));
}

#[test]
fn mute_decisions_reach_the_desired_state() {
    assert_eq!(mute_desired(true, false), Some(true));
    assert_eq!(mute_desired(false, true), Some(false));
    assert_eq!(mute_desired(false, false), None);
    for current in [false, true] {
        for (on, off) in [(true, false), (false, true)] {
            let desired = mute_desired(on, off).unwrap();
            let after = if mute_should_toggle(current, Some(desired)) { !current } else { current };
            assert_eq!(after, desired);
        }
        assert!(mute_should_toggle(current, None));
    }
}

// ---- plans and envelopes ----

#[test]
fn dry_run_plans() {
    let plan = mute_plan(&by_id(42), false, false);
    assert_eq!(plan.get("action"), Some(&text("node mute")));
    assert_eq!(plan.get("target"), Some(&obj(vec![("id", Json::UInt(42))])));
    assert_eq!(plan.get("state"), Some(&text("toggle")));
    assert_eq!(mute_plan(&by_name("mic"), true, false).get("state"), Some(&text("on")));
    assert_eq!(target_json(&by_name("mic")), obj(vec![("name", text("mic"))]));
    assert_eq!(target_json(&NodeTarget { id: None, name: None }), Json::Null);
    let plan = set_default_plan(&by_id(40));
    assert_eq!(plan, obj(vec![("action", text("node set-default")), ("target", obj(vec![("id", Json::UInt(40))]))]));
    let plan = set_profile_plan(&DeviceTarget { id: Some(ObjectId(50)), name: None }, 2);
    assert_eq!(plan.get("profile"), Some(&Json::Int(2)));
    let response = dry_run("wiremix node mute", plan).unwrap();
    assert_eq!(response.metadata.command, "wiremix node mute");
    assert_eq!(response.data.get("dry_run"), Some(&Json::Bool(true)));
    assert!(response.data.get("plan").is_some());
}

#[test]
fn records_per_mode() {
    let response = || obj(vec![("metadata", obj(vec![("tool", text("wiremix"))])), ("data", Json::Array(vec![
        obj(vec![("id", Json::Int(1)), ("name", text("a"))]),
        obj(vec![("id", Json::Int(2)), ("name", text("b"))]),
    ]))]);
    assert_eq!(output_records(response(), Mode::Json, None), vec![response()]);
    let lines = output_records(response(), Mode::Jsonl, None);
    assert_eq!(lines.len(), 2);
    assert_eq!(lines[1], obj(vec![("id", Json::Int(2)), ("name", text("b"))]));
    let fields = [s("id")];
    let lines = output_records(response(), Mode::Jsonl, Some(&fields));
    assert_eq!(lines, vec![obj(vec![("id", Json::Int(1))]), obj(vec![("id", Json::Int(2))])]);
    let single = obj(vec![("data", obj(vec![("ok", Json::Bool(true)), ("x", Json::Null)]))]);
    assert_eq!(output_records(single, Mode::Jsonl, Some(&[s("ok")])), vec![obj(vec![("ok", Json::Bool(true))])]);
    let bare = obj(vec![("error", Json::Null)]);
    assert_eq!(output_records(bare, Mode::Jsonl, None), vec![obj(vec![("error", Json::Null)])]);
    assert_eq!(terminator(true), '\0');
    assert_eq!(terminator(false), '\n');
}

#[test]
fn projection_is_idempotent_and_keeps_scalars() {
    let mut v = Json::Array(vec![obj(vec![("a", Json::Int(1)), ("b", Json::Int(2))]), Json::Int(5)]);
    let fields = [s("a")];
    project_fields(&mut v, &fields);
    let once = Json::Array(vec![obj(vec![("a", Json::Int(1))]), Json::Int(5)]);
    assert_eq!(v, once);
    project_fields(&mut v, &fields);
    assert_eq!(v, once);
    let mut single = obj(vec![("a", Json::Int(1)), ("c", Json::Int(3))]);
    project_fields(&mut single, &[s("c"), s("zz")]);
    assert_eq!(single, obj(vec![("c", Json::Int(3))]));
}

// ---- mode detection ----

#[test]
fn resolve_cascade_order() {
    assert_eq!(resolve(false, None, true, true), Resolved::Output(Mode::Json));
    assert_eq!(resolve(false, None, false, true), Resolved::Output(Mode::Human));
    assert_eq!(resolve(false, None, false, false), Resolved::Output(Mode::Json));
    assert_eq!(resolve(true, Some(Format::Explore), false, true), Resolved::Output(Mode::Json));
    assert_eq!(resolve(false, Some(Format::Json), false, true), Resolved::Output(Mode::Json));
}

#[test]
fn agent_environment_values() {
    assert!(env_true(Some("1")));
    assert!(env_true(Some("yes")));
    assert!(!env_true(Some("")));
    assert!(!env_true(Some("0")));
    assert!(!env_true(Some("false")));
    assert!(!env_true(None));
    assert!(agent_env(None, None, Some("true")));
    assert!(!agent_env(Some("0"), Some("false"), None));
}

#[test]
fn one_shot_modes_and_labels() {
    assert_eq!(one_shot_mode(Resolved::Output(Mode::Jsonl), false), Mode::Jsonl);
    assert_eq!(one_shot_mode(Resolved::Tui, true), Mode::Json);
    assert_eq!(one_shot_mode(Resolved::Tui, false), Mode::Human);
    assert_eq!(command_label(Verb::DeviceSetProfile), "wiremix device set-profile");
    assert_eq!(command_label(Verb::Schema), "wiremix schema");
    let e = explore_with_subcommand();
    assert_eq!(e.code, ErrorCode::Usage);
    assert_eq!(e.hint.as_deref(), Some("wiremix"));
}

// ---- connection decisions ----

#[test]
fn connecting_decisions() {
    assert!(matches!(open_step(OpenEvent::Ready), OpenStep::Done));
    assert!(matches!(open_step(OpenEvent::StateChange), OpenStep::Apply));
    match open_step(OpenEvent::Error(s("broken"))) {
        OpenStep::Fail(e) => {
            assert_eq!(e.code, ErrorCode::Unavailable);
            assert_eq!(e.message, "PipeWire error: broken");
            assert_eq!(e.hint.as_deref(), Some("wiremix server info --json"));
        }
        _ => panic!("expected a failure"),
    }
    match open_step(OpenEvent::TimedOut) {
        OpenStep::Fail(e) => {
            assert_eq!(e.code, ErrorCode::Timeout);
            assert_eq!(e.hint.as_deref(), Some("wiremix server info --json"));
        }
        _ => panic!("expected a failure"),
    }
    let e = connect_failed("no socket");
    assert_eq!(e.message, "failed to connect to PipeWire: no socket");
    assert_eq!(e.hint.as_deref(), Some("wiremix server info --json"));
    match open_step(OpenEvent::Disconnected) {
        OpenStep::Fail(e) => assert_eq!(e.hint.as_deref(), Some("wiremix server info --json")),
        _ => panic!("expected a failure"),
    }
    assert_eq!(remaining(5000, 1200), 3800);
    assert_eq!(remaining(5000, 6000), 0);
}

#[test]
fn settling_waits_are_bounded() {
    let mut settle = Settle::start(1000);
    assert_eq!(settle.hard, 2500);
    assert_eq!(settle.wait(1000), Some(400));
    assert!(settle.on_event(SettleEvent::StateChange));
    assert_eq!(settle.wait(1100), Some(120));
    assert_eq!(settle.wait(2450), Some(50));
    assert_eq!(settle.wait(2500), None);
    assert!(settle.on_event(SettleEvent::Other));
    assert!(!settle.on_event(SettleEvent::Quiet));
}

// ---- schema and manifest ----

#[test]
fn schema_branches_match_the_table() {
    let doc = schema();
    let branches = doc.get("oneOf").and_then(Json::as_array).unwrap();
    let table = commands();
    assert_eq!(branches.len(), table.len());
    for (branch, spec) in branches.iter().zip(table.iter()) {
        assert_eq!(branch.get("title"), Some(&text(spec.name)));
        let constant = branch.get("properties").and_then(|p| p.get("command")).and_then(|c| c.get("const"));
        assert_eq!(constant, Some(&text(spec.name)));
    }
    let set_volume = &branches[2];
    assert_eq!(set_volume.get("required"), Some(&Json::Array(vec![text("command"), text("percent")])));
    assert_eq!(set_volume.get("additionalProperties"), Some(&Json::Bool(false)));
    let names = doc.get("properties").and_then(|p| p.get("command")).and_then(|c| c.get("enum")).and_then(Json::as_array).unwrap();
    assert_eq!(names.len(), 14);
    assert_eq!(names[0], text("node list"));
    let codes = doc.get("x-exit-codes").unwrap();
    assert_eq!(codes.get("3"), Some(&text("not found")));
    assert_eq!(codes.get("5"), Some(&text("conflict")));
}

#[test]
fn manifest_lists_flags_and_commands() {
    let doc = describe();
    assert_eq!(doc.get("docs_url"), Some(&text("https://Wiremix.SpacecraftSoftware.org/")));
    let flags = doc.get("global_flags").and_then(Json::as_array).unwrap();
    assert_eq!(flags.len(), global_flag_table().len());
    assert_eq!(flags[3].get("flag"), Some(&text("--dry-run")));
    let commands = doc.get("commands").and_then(Json::as_array).unwrap();
    let mute = &commands[3];
    assert_eq!(mute.get("name"), Some(&text("node mute")));
    assert_eq!(mute.get("kind"), Some(&text("write")));
    let params = mute.get("params").and_then(Json::as_array).unwrap();
    assert_eq!(params.len(), 5);
    assert_eq!(params[2].get("required"), Some(&Json::Bool(false)));
    assert_eq!(mute.get("example"), Some(&text("wiremix node mute 42 --toggle")));
}

// ---- tabs ----

#[test]
fn tab_layout() {
    assert_eq!(tab_info(TabKind::Output), (ListKind::Node(NodeKind::Output), Some(DeviceKind::Sink)));
    assert_eq!(tab_info(TabKind::Input), (ListKind::Node(NodeKind::Input), Some(DeviceKind::Source)));
    assert_eq!(tab_info(TabKind::Playback), (ListKind::Node(NodeKind::Playback), None));
    assert_eq!(tab_info(TabKind::Configuration), (ListKind::Device, None));
    assert_eq!(tab_title(TabKind::Output), "Output Devices");
    assert_eq!(tab_title(TabKind::Configuration), "Configuration");
}

#[test]
fn tab_projection() {
    let mut view = sample_view();
    // The stream is routed to the speakers and could go to either sink.
    view.nodes[2].target = Some(Target::Node(ObjectId(40)));
    view.nodes[2].targets = vec![(Target::Node(ObjectId(39)), s("HDMI")), (Target::Node(ObjectId(40)), s("Speakers"))];
    view.nodes[2].target_title = s("Speakers");
    view.nodes[2].peak_percents = vec![30, 35];
    view.nodes[0].is_default_sink = true;
    // An id without a node is skipped.
    view.nodes_playback.push(ObjectId(99));
    let tabs = vec![TabKind::Playback, TabKind::Output, TabKind::Configuration];

    let playback = project(&view, &tabs, 0);
    assert!(!playback.is_device_tab);
    assert_eq!(playback.default_kind, None);
    assert_eq!(playback.node_ids, vec![ObjectId(42)]);
    assert!(playback.device_rows.is_empty() && playback.device_ids.is_empty());
    let row = &playback.node_rows[0];
    assert_eq!(row.title, "Firefox Speaker Test");
    assert_eq!(row.subtitle, "Speakers");
    assert_eq!(row.target_labels, vec![s("HDMI"), s("Speakers")]);
    assert_eq!(row.target_index, 1);
    assert!(row.show_target && !row.can_default && !row.muted && !row.is_default);
    assert_eq!(row.peaks, Some(true));

    let output = project(&view, &tabs, 1);
    assert_eq!(output.default_kind, Some(DeviceKind::Sink));
    let row = &output.node_rows[0];
    assert!(row.can_default && row.is_default && !row.show_target);
    assert!(row.target_labels.is_empty());
    assert_eq!(row.target_index, 0);
    assert_eq!(row.peaks, None);

    let devices = project(&view, &tabs, 2);
    assert!(devices.is_device_tab);
    assert!(devices.node_rows.is_empty() && devices.node_ids.is_empty());
    assert_eq!(devices.device_ids, vec![ObjectId(50), ObjectId(51)]);
    assert_eq!(devices.device_rows[0].title, "Built-in Audio");
    assert_eq!(devices.device_rows[0].profile_labels, vec![s("Off"), s("Speakers"), s("Analog Stereo")]);
    assert_eq!(devices.device_rows[0].profile_index, 2);

    // Past the configured tabs the playback tab is shown.
    assert_eq!(current_tab(&tabs, 7), TabKind::Playback);
    assert_eq!(project(&view, &tabs, 7).node_ids, vec![ObjectId(42)]);
}

// ---- capture streams ----

#[test]
fn capture_decisions() {
    let target = Some(CaptureTarget { serial: 9, capture_sink: true });
    let mut set = Capturing::new();
    let a = set.handle_eligibility(true, CaptureEligibility::Eligible(ObjectId(4)), target);
    assert_eq!(a, CaptureAction::Start(ObjectId(4), CaptureTarget { serial: 9, capture_sink: true }));
    assert!(set.contains(ObjectId(4)));
    // Already capturing: nothing unless a restart is needed.
    assert_eq!(set.handle_eligibility(true, CaptureEligibility::Eligible(ObjectId(4)), target), CaptureAction::Nothing);
    assert!(matches!(set.handle_eligibility(true, CaptureEligibility::NeedsRestart(ObjectId(4)), target), CaptureAction::Start(..)));
    assert_eq!(set.ids.len(), 1);
    assert_eq!(set.handle_eligibility(true, CaptureEligibility::Ineligible(ObjectId(4)), None), CaptureAction::Stop(ObjectId(4)));
    assert!(!set.contains(ObjectId(4)));
    assert_eq!(set.handle_eligibility(true, CaptureEligibility::Ineligible(ObjectId(4)), None), CaptureAction::Nothing);
    // Metering off, or a node without capture details: nothing.
    assert_eq!(set.handle_eligibility(false, CaptureEligibility::Eligible(ObjectId(5)), target), CaptureAction::Nothing);
    assert_eq!(set.handle_eligibility(true, CaptureEligibility::Eligible(ObjectId(5)), None), CaptureAction::Nothing);
    assert!(set.ids.is_empty());
}

// ---- object ids ----

#[test]
fn object_id_round_trip() {
    let id = ObjectId::from_raw_id(77);
    assert_eq!(id, ObjectId(77));
    assert_eq!(id.raw(), 77);
    assert_eq!(u32::from(id), 77);
    assert_eq!(ObjectId::default(), ObjectId(0));
    assert!(ObjectId(3) < ObjectId(10));
    assert!(ObjectId(10) > ObjectId(3));
    assert_eq!(ObjectId(5).partial_cmp(&ObjectId(5)), Some(std::cmp::Ordering::Equal));
    let mut ids = vec![ObjectId(9), ObjectId(2), ObjectId(40)];
    ids.sort();
    assert_eq!(ids, vec![ObjectId(2), ObjectId(9), ObjectId(40)]);
}

#[test]
fn every_command_but_balance_is_documented() {
    let all = [
        Verb::NodeList,
        Verb::NodeGet,
        Verb::NodeSetVolume,
        Verb::NodeBalance,
        Verb::NodeMute,
        Verb::NodeSetDefault,
        Verb::DeviceList,
        Verb::DeviceGet,
        Verb::DeviceSetProfile,
        Verb::LinkList,
        Verb::MetadataList,
        Verb::MetadataGet,
        Verb::ServerInfo,
        Verb::Schema,
        Verb::Describe,
    ];
    let table = commands();
    let names: Vec<&str> = table.iter().map(|c| c.name).collect();
    for v in all {
        let documented = names.contains(&wiremix::cli::verb_name(v));
        assert_eq!(documented, v != Verb::NodeBalance, "{:?}", v);
    }
    for (i, a) in names.iter().enumerate() {
        for b in &names[i + 1..] {
            assert_ne!(a, b);
        }
    }
    let labels: Vec<String> = all.iter().map(|v| command_label(*v)).collect();
    for (i, a) in labels.iter().enumerate() {
        for b in &labels[i + 1..] {
            assert_ne!(a, b);
        }
    }
    assert_eq!(command_label(Verb::ServerInfo), "wiremix server info");
}

// ---- media classes ----

#[test]
fn media_class_rules() {
    assert!(is_sink_input("Stream/Output/Audio"));
    assert!(!is_sink_input("Stream/Input/Audio"));
    assert!(is_source_output("Stream/Input/Audio"));
    assert!(is_sink("Audio/Sink") && is_sink("Audio/Duplex"));
    assert!(!is_sink("Audio/Source"));
    assert!(is_source("Audio/Source") && is_source("Audio/Duplex") && is_source("Audio/Source/Virtual"));
    assert!(!is_source("Audio/Sink"));
    assert!(!is_sink("Video/Source") && !is_source("Video/Source"));
}

#[test]
fn schema_and_manifest_agree_in_detail() {
    let schema_doc = schema();
    let manifest = describe();
    assert_eq!(schema_doc.get("x-exit-codes"), manifest.get("exit_codes"));
    let branches = schema_doc.get("oneOf").and_then(Json::as_array).unwrap();
    let entries = manifest.get("commands").and_then(Json::as_array).unwrap();
    assert_eq!(branches.len(), entries.len());
    for (b, d) in branches.iter().zip(entries) {
        assert_eq!(b.get("description"), d.get("summary"));
        let keys: Vec<String> = match b.get("properties") {
            Some(Json::Object(es)) => es.iter().map(|(k, _)| k.clone()).collect(),
            _ => panic!("properties object"),
        };
        let names: Vec<String> = d
            .get("params")
            .and_then(Json::as_array)
            .unwrap()
            .iter()
            .map(|p| match p.get("name") {
                Some(Json::Str(n)) => n.clone(),
                _ => panic!("parameter name"),
            })
            .collect();
        assert_eq!(keys.last().map(String::as_str), Some("command"));
        assert_eq!(&keys[..keys.len() - 1], &names[..]);
    }
}

#[test]
fn dry_run_plans_name_action_and_target() {
    let t = by_id(42);
    let r = dry_run("wiremix node set-default", set_default_plan(&t)).unwrap();
    assert_eq!(r.data.get("dry_run"), Some(&Json::Bool(true)));
    let plan = r.data.get("plan").unwrap();
    assert_eq!(plan.get("action"), Some(&text("node set-default")));
    assert_eq!(plan.get("target"), Some(&target_json(&t)));
}

#[test]
fn clock_error_hints_at_the_clock() {
    let e = wiremix::cli::envelope::clock_error();
    assert_eq!(e.code, ErrorCode::Internal);
    assert_eq!(e.message, "the system clock is outside the supported range");
    assert_eq!(e.hint.as_deref(), Some("date -u"));
    assert_eq!(e.exit_code().code(), 1);
}

#[test]
fn uniform_volume_outcomes() {
    assert!(wiremix::cli::uniform_volume_outcome(ObjectId(42), true).is_ok());
    let e = wiremix::cli::uniform_volume_outcome(ObjectId(42), false).unwrap_err();
    assert_eq!((e.code, e.message.as_str()), (ErrorCode::Conflict, "volume change rejected"));
    assert_eq!(e.hint.as_deref(), Some("wiremix node get 42 --json"));
    assert_eq!(e.exit_code().code(), 5);
}

// ---- reading the session graph ----

#[test]
fn graph_rules() {
    assert_eq!(node_title(Some("Firefox"), Some("Video"), Some("desc"), None, "ff"), "Firefox: Video");
    assert_eq!(node_title(Some("Firefox"), None, Some("desc"), Some("nick"), "ff"), "desc");
    assert_eq!(node_title(None, None, None, Some("nick"), "ff"), "nick");
    assert_eq!(node_title(None, None, None, None, "ff"), "ff");
    let links = vec![
        Link { object_id: ObjectId(90), output_id: ObjectId(42), input_id: ObjectId(40) },
        Link { object_id: ObjectId(91), output_id: ObjectId(41), input_id: ObjectId(43) },
        Link { object_id: ObjectId(92), output_id: ObjectId(42), input_id: ObjectId(39) },
    ];
    assert_eq!(stream_peer(&links, ObjectId(42), true, false), Some(ObjectId(40)));
    assert_eq!(stream_peer(&links, ObjectId(43), false, true), Some(ObjectId(41)));
    assert_eq!(stream_peer(&links, ObjectId(42), false, true), None);
    assert_eq!(stream_peer(&links, ObjectId(7), true, true), None);
    let routes = vec![(0, 5), (1, 7), (1, 9)];
    assert_eq!(route_index(&routes, 1), Some(7));
    assert_eq!(route_index(&routes, 2), None);
}
