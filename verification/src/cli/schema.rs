//! `wiremix schema` and `wiremix describe` introspection. Both documents are
//! generated from one command table, so they never drift apart.

use vstd::prelude::*;

use crate::cli::{verb_name_v, Verb, DOCS_URL, MAINTAINER, TOOL, VERSION, WEBSITE};
use crate::cli::output::{get_field, lemma_first_key_at};
use crate::json::{deep_entries, deep_items, entry, lemma_deep_array, lemma_deep_entries_push, lemma_deep_items_push, lemma_deep_object, Json, JsonV};

verus! {

/// A command parameter.
#[derive(Debug, Clone, Copy)]
pub struct ParamSpec {
    pub name: &'static str,
    /// JSON Schema primitive type.
    pub ty: &'static str,
    pub required: bool,
    pub description: &'static str,
}

/// A command of the table.
#[derive(Debug)]
pub struct CommandSpec {
    pub name: &'static str,
    pub summary: &'static str,
    /// `read`, `write` or `meta`.
    pub kind: &'static str,
    pub params: Vec<ParamSpec>,
    /// A complete, runnable invocation.
    pub example: &'static str,
}

/// The value of a parameter.
pub struct ParamV {
    pub name: Seq<char>,
    pub ty: Seq<char>,
    pub required: bool,
    pub description: Seq<char>,
}

/// The value of a command.
pub struct CommandV {
    pub name: Seq<char>,
    pub summary: Seq<char>,
    pub kind: Seq<char>,
    pub params: Seq<ParamV>,
    pub example: Seq<char>,
}

impl View for ParamSpec {
    type V = ParamV;

    open spec fn view(&self) -> ParamV {
        ParamV { name: self.name@, ty: self.ty@, required: self.required, description: self.description@ }
    }
}

/// The values of a sequence of parameters.
pub open spec fn params_view(ps: Seq<ParamSpec>) -> Seq<ParamV> {
    Seq::new(ps.len(), |i: int| ps[i]@)
}

impl View for CommandSpec {
    type V = CommandV;

    open spec fn view(&self) -> CommandV {
        CommandV {
            name: self.name@,
            summary: self.summary@,
            kind: self.kind@,
            params: params_view(self.params@),
            example: self.example@,
        }
    }
}

/// The values of a sequence of commands.
pub open spec fn commands_view(cs: Seq<CommandSpec>) -> Seq<CommandV> {
    Seq::new(cs.len(), |i: int| cs[i]@)
}

/// The `id` parameter of a node or device target.
pub open spec fn id_param() -> ParamV {
    ParamV {
        name: "id"@,
        ty: "integer"@,
        required: false,
        description: "PipeWire object id (provide id or --name)."@,
    }
}

/// The `name` parameter of a node target.
pub open spec fn name_param() -> ParamV {
    ParamV {
        name: "name"@,
        ty: "string"@,
        required: false,
        description: "Name substring, or @DEFAULT_SINK@ / @DEFAULT_SOURCE@ (provide id or --name)."@,
    }
}

/// The `name` parameter of a device target.
pub open spec fn device_name_param() -> ParamV {
    ParamV {
        name: "name"@,
        ty: "string"@,
        required: false,
        description: "Device title substring (provide id or --name)."@,
    }
}

/// A command of the table.
pub open spec fn command_v(name: Seq<char>, summary: Seq<char>, kind: Seq<char>, params: Seq<ParamV>, example: Seq<char>) -> CommandV {
    CommandV { name, summary, kind, params, example }
}

/// The command table: every command of the command line, with its
/// parameters and a runnable example.
pub open spec fn command_table() -> Seq<CommandV> {
    seq![
        command_v("node list"@, "List controllable nodes (streams and device endpoints)."@, "read"@, seq![], "wiremix node list --json"@),
        command_v("node get"@, "Show one node: volumes, mute, default flags, target."@, "read"@, seq![id_param(), name_param()], "wiremix node get 42 --json"@),
        command_v(
            "node set-volume"@,
            "Set a node's volume; one percentage (all channels) or one per channel."@,
            "write"@,
            seq![id_param(), name_param(), ParamV { name: "percent"@, ty: "number"@, required: true, description: "One percentage (100 = unity), or one per channel."@ }],
            "wiremix node set-volume 42 50"@,
        ),
        command_v(
            "node mute"@,
            "Mute, unmute, or toggle a node (default: toggle)."@,
            "write"@,
            seq![
                id_param(),
                name_param(),
                ParamV { name: "on"@, ty: "boolean"@, required: false, description: "Mute the node."@ },
                ParamV { name: "off"@, ty: "boolean"@, required: false, description: "Unmute the node."@ },
                ParamV { name: "toggle"@, ty: "boolean"@, required: false, description: "Toggle mute (the default if none given)."@ },
            ],
            "wiremix node mute 42 --toggle"@,
        ),
        command_v("node set-default"@, "Set a sink/source node as the default."@, "write"@, seq![id_param(), name_param()], "wiremix node set-default 42"@),
        command_v("device list"@, "List devices with their profiles."@, "read"@, seq![], "wiremix device list --json"@),
        command_v("device get"@, "Show one device: active profile and available profiles."@, "read"@, seq![id_param(), device_name_param()], "wiremix device get 50 --json"@),
        command_v(
            "device set-profile"@,
            "Switch a device to a profile by index."@,
            "write"@,
            seq![id_param(), device_name_param(), ParamV { name: "profile"@, ty: "integer"@, required: true, description: "Profile index (see `device get`)."@ }],
            "wiremix device set-profile 50 1"@,
        ),
        command_v("link list"@, "List links (connections) between nodes."@, "read"@, seq![], "wiremix link list --json"@),
        command_v("metadata list"@, "List metadata objects and their properties."@, "read"@, seq![], "wiremix metadata list --json"@),
        command_v(
            "metadata get"@,
            "Show one metadata object by name (e.g. \"default\")."@,
            "read"@,
            seq![ParamV { name: "name"@, ty: "string"@, required: false, description: "Metadata name; defaults to \"default\"."@ }],
            "wiremix metadata get --name default --json"@,
        ),
        command_v("server info"@, "Default sink/source, object counts, and remote."@, "read"@, seq![], "wiremix server info --json"@),
        command_v("schema"@, "Print this JSON Schema of the CLI."@, "meta"@, seq![], "wiremix schema"@),
        command_v("describe"@, "Print a capability manifest of the CLI."@, "meta"@, seq![], "wiremix describe"@),
    ]
}


fn id_param_spec() -> (r: ParamSpec)
    ensures
        r@ == id_param(),
{
    ParamSpec { name: "id", ty: "integer", required: false, description: "PipeWire object id (provide id or --name)." }
}

fn name_param_spec() -> (r: ParamSpec)
    ensures
        r@ == name_param(),
{
    ParamSpec {
        name: "name",
        ty: "string",
        required: false,
        description: "Name substring, or @DEFAULT_SINK@ / @DEFAULT_SOURCE@ (provide id or --name).",
    }
}

fn device_name_param_spec() -> (r: ParamSpec)
    ensures
        r@ == device_name_param(),
{
    ParamSpec { name: "name", ty: "string", required: false, description: "Device title substring (provide id or --name)." }
}

/// The command table.
pub fn commands() -> (r: Vec<CommandSpec>)
    ensures
        commands_view(r@) == command_table(),
{
    let mut out: Vec<CommandSpec> = Vec::new();
    let params: Vec<ParamSpec> = Vec::new();
    assert(params_view(params@) =~= seq![]);
    out.push(CommandSpec { name: "node list", summary: "List controllable nodes (streams and device endpoints).", kind: "read", params, example: "wiremix node list --json" });
    let params = vec![id_param_spec(), name_param_spec()];
    assert(params_view(params@) =~= seq![id_param(), name_param()]);
    out.push(CommandSpec { name: "node get", summary: "Show one node: volumes, mute, default flags, target.", kind: "read", params, example: "wiremix node get 42 --json" });
    let params = vec![id_param_spec(), name_param_spec(), ParamSpec { name: "percent", ty: "number", required: true, description: "One percentage (100 = unity), or one per channel." }];
    assert(params_view(params@) =~= seq![id_param(), name_param(), ParamV { name: "percent"@, ty: "number"@, required: true, description: "One percentage (100 = unity), or one per channel."@ }]);
    out.push(CommandSpec { name: "node set-volume", summary: "Set a node's volume; one percentage (all channels) or one per channel.", kind: "write", params, example: "wiremix node set-volume 42 50" });
    let params = vec![id_param_spec(), name_param_spec(), ParamSpec { name: "on", ty: "boolean", required: false, description: "Mute the node." }, ParamSpec { name: "off", ty: "boolean", required: false, description: "Unmute the node." }, ParamSpec { name: "toggle", ty: "boolean", required: false, description: "Toggle mute (the default if none given)." }];
    assert(params_view(params@) =~= seq![id_param(), name_param(), ParamV { name: "on"@, ty: "boolean"@, required: false, description: "Mute the node."@ }, ParamV { name: "off"@, ty: "boolean"@, required: false, description: "Unmute the node."@ }, ParamV { name: "toggle"@, ty: "boolean"@, required: false, description: "Toggle mute (the default if none given)."@ }]);
    out.push(CommandSpec { name: "node mute", summary: "Mute, unmute, or toggle a node (default: toggle).", kind: "write", params, example: "wiremix node mute 42 --toggle" });
    let params = vec![id_param_spec(), name_param_spec()];
    assert(params_view(params@) =~= seq![id_param(), name_param()]);
    out.push(CommandSpec { name: "node set-default", summary: "Set a sink/source node as the default.", kind: "write", params, example: "wiremix node set-default 42" });
    let params: Vec<ParamSpec> = Vec::new();
    assert(params_view(params@) =~= seq![]);
    out.push(CommandSpec { name: "device list", summary: "List devices with their profiles.", kind: "read", params, example: "wiremix device list --json" });
    let params = vec![id_param_spec(), device_name_param_spec()];
    assert(params_view(params@) =~= seq![id_param(), device_name_param()]);
    out.push(CommandSpec { name: "device get", summary: "Show one device: active profile and available profiles.", kind: "read", params, example: "wiremix device get 50 --json" });
    let params = vec![id_param_spec(), device_name_param_spec(), ParamSpec { name: "profile", ty: "integer", required: true, description: "Profile index (see `device get`)." }];
    assert(params_view(params@) =~= seq![id_param(), device_name_param(), ParamV { name: "profile"@, ty: "integer"@, required: true, description: "Profile index (see `device get`)."@ }]);
    out.push(CommandSpec { name: "device set-profile", summary: "Switch a device to a profile by index.", kind: "write", params, example: "wiremix device set-profile 50 1" });
    let params: Vec<ParamSpec> = Vec::new();
    assert(params_view(params@) =~= seq![]);
    out.push(CommandSpec { name: "link list", summary: "List links (connections) between nodes.", kind: "read", params, example: "wiremix link list --json" });
    let params: Vec<ParamSpec> = Vec::new();
    assert(params_view(params@) =~= seq![]);
    out.push(CommandSpec { name: "metadata list", summary: "List metadata objects and their properties.", kind: "read", params, example: "wiremix metadata list --json" });
    let params = vec![ParamSpec { name: "name", ty: "string", required: false, description: "Metadata name; defaults to \"default\"." }];
    assert(params_view(params@) =~= seq![ParamV { name: "name"@, ty: "string"@, required: false, description: "Metadata name; defaults to \"default\"."@ }]);
    out.push(CommandSpec { name: "metadata get", summary: "Show one metadata object by name (e.g. \"default\").", kind: "read", params, example: "wiremix metadata get --name default --json" });
    let params: Vec<ParamSpec> = Vec::new();
    assert(params_view(params@) =~= seq![]);
    out.push(CommandSpec { name: "server info", summary: "Default sink/source, object counts, and remote.", kind: "read", params, example: "wiremix server info --json" });
    let params: Vec<ParamSpec> = Vec::new();
    assert(params_view(params@) =~= seq![]);
    out.push(CommandSpec { name: "schema", summary: "Print this JSON Schema of the CLI.", kind: "meta", params, example: "wiremix schema" });
    let params: Vec<ParamSpec> = Vec::new();
    assert(params_view(params@) =~= seq![]);
    out.push(CommandSpec { name: "describe", summary: "Print a capability manifest of the CLI.", kind: "meta", params, example: "wiremix describe" });
    assert(commands_view(out@) =~= command_table());
    out
}


/// The global flags and their descriptions.
pub open spec fn global_flags() -> Seq<(Seq<char>, Seq<char>)> {
    seq![
        ("--json"@, "Alias for --format json."@),
        ("--format <json|jsonl|explore>"@, "Output format (explore = TUI)."@),
        ("--fields <a,b,...>"@, "Restrict output records to these fields."@),
        ("--dry-run"@, "Emit the action plan as JSON; make no changes."@),
        ("--verbose"@, "Diagnostic output to stderr."@),
        ("--quiet / -q"@, "Suppress non-error stderr."@),
        ("--color <never|always|auto>"@, "Color control (output is plain text)."@),
        ("--no-color"@, "Disable color."@),
        ("--absolute-time"@, "Render absolute time (output is always UTC)."@),
        ("--print0 / -0"@, "NUL-terminate output for safe piping."@),
        ("--yes / --force"@, "Skip confirmation in non-TTY mode."@),
    ]
}

/// The global flags and their descriptions.
pub fn global_flag_table() -> (r: Vec<(&'static str, &'static str)>)
    ensures
        Seq::new(r@.len(), |i: int| (r@[i].0@, r@[i].1@)) == global_flags(),
{
    let r = vec![
        ("--json", "Alias for --format json."),
        ("--format <json|jsonl|explore>", "Output format (explore = TUI)."),
        ("--fields <a,b,...>", "Restrict output records to these fields."),
        ("--dry-run", "Emit the action plan as JSON; make no changes."),
        ("--verbose", "Diagnostic output to stderr."),
        ("--quiet / -q", "Suppress non-error stderr."),
        ("--color <never|always|auto>", "Color control (output is plain text)."),
        ("--no-color", "Disable color."),
        ("--absolute-time", "Render absolute time (output is always UTC)."),
        ("--print0 / -0", "NUL-terminate output for safe piping."),
        ("--yes / --force", "Skip confirmation in non-TTY mode."),
    ];
    assert(Seq::new(r@.len(), |i: int| (r@[i].0@, r@[i].1@)) =~= global_flags());
    r
}

/// The exit codes and what each means.
pub open spec fn exit_codes_model() -> JsonV {
    JsonV::Object(
        seq![
            ("0"@, JsonV::Str("success"@)),
            ("1"@, JsonV::Str("general failure"@)),
            ("2"@, JsonV::Str("usage error"@)),
            ("3"@, JsonV::Str("not found"@)),
            ("4"@, JsonV::Str("permission denied"@)),
            ("5"@, JsonV::Str("conflict"@)),
        ],
    )
}

/// The exit codes and what each means.
pub fn exit_codes() -> (r: Json)
    ensures
        r.deep() == exit_codes_model(),
{
    let mut es: Vec<(String, Json)> = Vec::new();
    es.push(entry("0", Json::text("success")));
    es.push(entry("1", Json::text("general failure")));
    es.push(entry("2", Json::text("usage error")));
    es.push(entry("3", Json::text("not found")));
    es.push(entry("4", Json::text("permission denied")));
    es.push(entry("5", Json::text("conflict")));
    proof {
        lemma_deep_object(es);
        assert(deep_entries(es@) =~= exit_codes_model()->Object_0);
    }
    Json::Object(es)
}

/// A parameter's schema: its type and description, under its name.
pub open spec fn param_schema_model(p: ParamV) -> (Seq<char>, JsonV) {
    (p.name, JsonV::Object(seq![("type"@, JsonV::Str(p.ty)), ("description"@, JsonV::Str(p.description))]))
}

/// The names of the required parameters, in order.
pub open spec fn required_names(ps: Seq<ParamV>) -> Seq<JsonV>
    decreases ps.len(),
{
    if ps.len() == 0 {
        Seq::empty()
    } else {
        let r = required_names(ps.drop_last());
        if ps.last().required {
            r.push(JsonV::Str(ps.last().name))
        } else {
            r
        }
    }
}

/// One schema branch: an object with the command's parameters plus a
/// `command` constant, requiring `command` and the required parameters.
pub open spec fn branch_model(c: CommandV) -> JsonV {
    JsonV::Object(
        seq![
            ("title"@, JsonV::Str(c.name)),
            ("description"@, JsonV::Str(c.summary)),
            ("type"@, JsonV::Str("object"@)),
            (
                "properties"@,
                JsonV::Object(
                    Seq::new(c.params.len(), |i: int| param_schema_model(c.params[i])).push(
                        ("command"@, JsonV::Object(seq![("const"@, JsonV::Str(c.name))])),
                    ),
                ),
            ),
            ("required"@, JsonV::Array(seq![JsonV::Str("command"@)] + required_names(c.params))),
            ("additionalProperties"@, JsonV::Bool(false)),
        ],
    )
}

/// The JSON Schema (draft 2020-12) of the command line: one branch per
/// command, keyed by a `command` constant.
pub open spec fn schema_model(t: Seq<CommandV>) -> JsonV {
    JsonV::Object(
        seq![
            ("$schema"@, JsonV::Str("https://json-schema.org/draft/2020-12/schema"@)),
            ("$id"@, JsonV::Str("https://Wiremix.SpacecraftSoftware.org/schema/cli.json"@)),
            ("title"@, JsonV::Str("wiremix CLI"@)),
            ("description"@, JsonV::Str("Command surface of the wiremix dual-mode PipeWire mixer."@)),
            ("type"@, JsonV::Str("object"@)),
            ("required"@, JsonV::Array(seq![JsonV::Str("command"@)])),
            (
                "properties"@,
                JsonV::Object(
                    seq![
                        (
                            "command"@,
                            JsonV::Object(seq![("enum"@, JsonV::Array(Seq::new(t.len(), |i: int| JsonV::Str(t[i].name))))]),
                        ),
                    ],
                ),
            ),
            ("oneOf"@, JsonV::Array(Seq::new(t.len(), |i: int| branch_model(t[i])))),
            ("x-exit-codes"@, exit_codes_model()),
        ],
    )
}

/// A parameter in the capability manifest.
pub open spec fn describe_param_model(p: ParamV) -> JsonV {
    JsonV::Object(
        seq![
            ("name"@, JsonV::Str(p.name)),
            ("type"@, JsonV::Str(p.ty)),
            ("required"@, JsonV::Bool(p.required)),
            ("description"@, JsonV::Str(p.description)),
        ],
    )
}

/// A command in the capability manifest.
pub open spec fn describe_command_model(c: CommandV) -> JsonV {
    JsonV::Object(
        seq![
            ("name"@, JsonV::Str(c.name)),
            ("summary"@, JsonV::Str(c.summary)),
            ("kind"@, JsonV::Str(c.kind)),
            ("params"@, JsonV::Array(Seq::new(c.params.len(), |i: int| describe_param_model(c.params[i])))),
            ("example"@, JsonV::Str(c.example)),
        ],
    )
}

/// The capability manifest: identity, global flags, exit codes, and every
/// command.
pub open spec fn describe_model(t: Seq<CommandV>, flags: Seq<(Seq<char>, Seq<char>)>) -> JsonV {
    JsonV::Object(
        seq![
            ("tool"@, JsonV::Str(TOOL@)),
            ("version"@, JsonV::Str(VERSION@)),
            ("maintainer"@, JsonV::Str(MAINTAINER@)),
            ("website"@, JsonV::Str(WEBSITE@)),
            ("docs_url"@, JsonV::Str(DOCS_URL@)),
            ("summary"@, JsonV::Str("Dual-mode (TUI + agent-native CLI) mixer for PipeWire."@)),
            (
                "global_flags"@,
                JsonV::Array(
                    Seq::new(
                        flags.len(),
                        |i: int| JsonV::Object(seq![("flag"@, JsonV::Str(flags[i].0)), ("description"@, JsonV::Str(flags[i].1))]),
                    ),
                ),
            ),
            ("exit_codes"@, exit_codes_model()),
            ("commands"@, JsonV::Array(Seq::new(t.len(), |i: int| describe_command_model(t[i])))),
        ],
    )
}


fn param_schema(p: &ParamSpec) -> (r: (String, Json))
    ensures
        (r.0@, r.1.deep()) == param_schema_model(p@),
{
    let mut es: Vec<(String, Json)> = Vec::new();
    es.push(entry("type", Json::text(p.ty)));
    es.push(entry("description", Json::text(p.description)));
    proof {
        lemma_deep_object(es);
        assert(deep_entries(es@) =~= param_schema_model(p@).1->Object_0);
    }
    (p.name.to_string(), Json::Object(es))
}

fn required_list(ps: &Vec<ParamSpec>) -> (r: Vec<Json>)
    ensures
        deep_items(r@) == seq![JsonV::Str("command"@)] + required_names(params_view(ps@)),
{
    let ghost pv = params_view(ps@);
    let mut out: Vec<Json> = Vec::new();
    out.push(Json::text("command"));
    assert(deep_items(out@) =~= seq![JsonV::Str("command"@)] + required_names(pv.subrange(0, 0)));
    let mut k: usize = 0;
    while k < ps.len()
        invariant
            pv == params_view(ps@),
            k <= ps@.len(),
            deep_items(out@) == seq![JsonV::Str("command"@)] + required_names(pv.subrange(0, k as int)),
        decreases ps@.len() - k,
    {
        let p = ps[k];
        proof {
            assert(pv.subrange(0, k + 1).drop_last() =~= pv.subrange(0, k as int));
            assert(pv.subrange(0, k + 1).last() == p@);
        }
        if p.required {
            let item = Json::text(p.name);
            proof {
                lemma_deep_items_push(out@, item);
            }
            out.push(item);
            assert(deep_items(out@) =~= seq![JsonV::Str("command"@)] + required_names(pv.subrange(0, k + 1)));
        }
        k += 1;
    }
    assert(pv.subrange(0, ps@.len() as int) =~= pv);
    out
}

fn branch(c: &CommandSpec) -> (r: Json)
    ensures
        r.deep() == branch_model(c@),
{
    let ghost cv = c@;
    let mut props: Vec<(String, Json)> = Vec::new();
    let mut k: usize = 0;
    while k < c.params.len()
        invariant
            cv == c@,
            k <= c.params@.len(),
            deep_entries(props@) == Seq::new(k as nat, |i: int| param_schema_model(cv.params[i])),
        decreases c.params@.len() - k,
    {
        let e = param_schema(&c.params[k]);
        proof {
            lemma_deep_entries_push(props@, e);
        }
        props.push(e);
        assert(deep_entries(props@) =~= Seq::new((k + 1) as nat, |i: int| param_schema_model(cv.params[i])));
        k += 1;
    }
    let mut cst: Vec<(String, Json)> = Vec::new();
    cst.push(entry("const", Json::text(c.name)));
    proof {
        lemma_deep_object(cst);
        assert(deep_entries(cst@) =~= seq![("const"@, JsonV::Str(cv.name))]);
    }
    let command = entry("command", Json::Object(cst));
    proof {
        lemma_deep_entries_push(props@, command);
    }
    props.push(command);
    proof {
        lemma_deep_object(props);
    }
    let required = required_list(&c.params);
    proof {
        lemma_deep_array(required);
    }
    let mut es: Vec<(String, Json)> = Vec::new();
    es.push(entry("title", Json::text(c.name)));
    es.push(entry("description", Json::text(c.summary)));
    es.push(entry("type", Json::text("object")));
    es.push(entry("properties", Json::Object(props)));
    es.push(entry("required", Json::Array(required)));
    es.push(entry("additionalProperties", Json::Bool(false)));
    proof {
        lemma_deep_object(es);
        assert(deep_entries(es@) =~= branch_model(cv)->Object_0);
    }
    Json::Object(es)
}

/// The `wiremix schema` document: a JSON Schema (draft 2020-12) whose
/// `oneOf` branches describe each command's parameters.
pub fn schema() -> (r: Json)
    ensures
        r.deep() == schema_model(command_table()),
{
    let table = commands();
    let ghost t = commands_view(table@);
    let mut names: Vec<Json> = Vec::new();
    let mut branches: Vec<Json> = Vec::new();
    let mut k: usize = 0;
    while k < table.len()
        invariant
            t == commands_view(table@),
            k <= table@.len(),
            deep_items(names@) == Seq::new(k as nat, |i: int| JsonV::Str(t[i].name)),
            deep_items(branches@) == Seq::new(k as nat, |i: int| branch_model(t[i])),
        decreases table@.len() - k,
    {
        let name = Json::text(table[k].name);
        let b = branch(&table[k]);
        proof {
            lemma_deep_items_push(names@, name);
            lemma_deep_items_push(branches@, b);
        }
        names.push(name);
        branches.push(b);
        assert(deep_items(names@) =~= Seq::new((k + 1) as nat, |i: int| JsonV::Str(t[i].name)));
        assert(deep_items(branches@) =~= Seq::new((k + 1) as nat, |i: int| branch_model(t[i])));
        k += 1;
    }
    proof {
        lemma_deep_array(names);
        lemma_deep_array(branches);
    }
    let mut en: Vec<(String, Json)> = Vec::new();
    en.push(entry("enum", Json::Array(names)));
    proof {
        lemma_deep_object(en);
        assert(deep_entries(en@) =~= seq![("enum"@, JsonV::Array(Seq::new(t.len(), |i: int| JsonV::Str(t[i].name))))]);
    }
    let mut cmd: Vec<(String, Json)> = Vec::new();
    cmd.push(entry("command", Json::Object(en)));
    proof {
        lemma_deep_object(cmd);
        assert(deep_entries(cmd@) =~= schema_model(t)->Object_0[6].1->Object_0);
    }
    let mut req: Vec<Json> = Vec::new();
    req.push(Json::text("command"));
    proof {
        lemma_deep_array(req);
        assert(deep_items(req@) =~= seq![JsonV::Str("command"@)]);
    }
    let mut es: Vec<(String, Json)> = Vec::new();
    es.push(entry("$schema", Json::text("https://json-schema.org/draft/2020-12/schema")));
    es.push(entry("$id", Json::text("https://Wiremix.SpacecraftSoftware.org/schema/cli.json")));
    es.push(entry("title", Json::text("wiremix CLI")));
    es.push(entry("description", Json::text("Command surface of the wiremix dual-mode PipeWire mixer.")));
    es.push(entry("type", Json::text("object")));
    es.push(entry("required", Json::Array(req)));
    es.push(entry("properties", Json::Object(cmd)));
    es.push(entry("oneOf", Json::Array(branches)));
    es.push(entry("x-exit-codes", exit_codes()));
    proof {
        lemma_deep_object(es);
        assert(deep_entries(es@) =~= schema_model(t)->Object_0);
    }
    Json::Object(es)
}

fn describe_param(p: &ParamSpec) -> (r: Json)
    ensures
        r.deep() == describe_param_model(p@),
{
    let mut es: Vec<(String, Json)> = Vec::new();
    es.push(entry("name", Json::text(p.name)));
    es.push(entry("type", Json::text(p.ty)));
    es.push(entry("required", Json::Bool(p.required)));
    es.push(entry("description", Json::text(p.description)));
    proof {
        lemma_deep_object(es);
        assert(deep_entries(es@) =~= describe_param_model(p@)->Object_0);
    }
    Json::Object(es)
}

fn describe_command(c: &CommandSpec) -> (r: Json)
    ensures
        r.deep() == describe_command_model(c@),
{
    let ghost cv = c@;
    let mut params: Vec<Json> = Vec::new();
    let mut k: usize = 0;
    while k < c.params.len()
        invariant
            cv == c@,
            k <= c.params@.len(),
            deep_items(params@) == Seq::new(k as nat, |i: int| describe_param_model(cv.params[i])),
        decreases c.params@.len() - k,
    {
        let p = describe_param(&c.params[k]);
        proof {
            lemma_deep_items_push(params@, p);
        }
        params.push(p);
        assert(deep_items(params@) =~= Seq::new((k + 1) as nat, |i: int| describe_param_model(cv.params[i])));
        k += 1;
    }
    proof {
        lemma_deep_array(params);
    }
    let mut es: Vec<(String, Json)> = Vec::new();
    es.push(entry("name", Json::text(c.name)));
    es.push(entry("summary", Json::text(c.summary)));
    es.push(entry("kind", Json::text(c.kind)));
    es.push(entry("params", Json::Array(params)));
    es.push(entry("example", Json::text(c.example)));
    proof {
        lemma_deep_object(es);
        assert(deep_entries(es@) =~= describe_command_model(cv)->Object_0);
    }
    Json::Object(es)
}

/// The `wiremix describe` manifest: the capability surface for humans and
/// agents.
pub fn describe() -> (r: Json)
    ensures
        r.deep() == describe_model(command_table(), global_flags()),
{
    let table = commands();
    let ghost t = commands_view(table@);
    let mut commands_json: Vec<Json> = Vec::new();
    let mut k: usize = 0;
    while k < table.len()
        invariant
            t == commands_view(table@),
            k <= table@.len(),
            deep_items(commands_json@) == Seq::new(k as nat, |i: int| describe_command_model(t[i])),
        decreases table@.len() - k,
    {
        let c = describe_command(&table[k]);
        proof {
            lemma_deep_items_push(commands_json@, c);
        }
        commands_json.push(c);
        assert(deep_items(commands_json@) =~= Seq::new((k + 1) as nat, |i: int| describe_command_model(t[i])));
        k += 1;
    }
    let flags = global_flag_table();
    let ghost fv = global_flags();
    let mut flags_json: Vec<Json> = Vec::new();
    let mut k: usize = 0;
    while k < flags.len()
        invariant
            fv == global_flags(),
            fv == Seq::new(flags@.len(), |i: int| (flags@[i].0@, flags@[i].1@)),
            k <= flags@.len(),
            deep_items(flags_json@) == Seq::new(
                k as nat,
                |i: int| JsonV::Object(seq![("flag"@, JsonV::Str(fv[i].0)), ("description"@, JsonV::Str(fv[i].1))]),
            ),
        decreases flags@.len() - k,
    {
        let (flag, description) = flags[k];
        let mut fe: Vec<(String, Json)> = Vec::new();
        fe.push(entry("flag", Json::text(flag)));
        fe.push(entry("description", Json::text(description)));
        proof {
            lemma_deep_object(fe);
            assert(deep_entries(fe@) =~= seq![("flag"@, JsonV::Str(fv[k as int].0)), ("description"@, JsonV::Str(fv[k as int].1))]);
        }
        let f = Json::Object(fe);
        proof {
            lemma_deep_items_push(flags_json@, f);
        }
        flags_json.push(f);
        assert(deep_items(flags_json@) =~= Seq::new(
            (k + 1) as nat,
            |i: int| JsonV::Object(seq![("flag"@, JsonV::Str(fv[i].0)), ("description"@, JsonV::Str(fv[i].1))]),
        ));
        k += 1;
    }
    proof {
        lemma_deep_array(commands_json);
        lemma_deep_array(flags_json);
    }
    let mut es: Vec<(String, Json)> = Vec::new();
    es.push(entry("tool", Json::text(TOOL)));
    es.push(entry("version", Json::text(VERSION)));
    es.push(entry("maintainer", Json::text(MAINTAINER)));
    es.push(entry("website", Json::text(WEBSITE)));
    es.push(entry("docs_url", Json::text(DOCS_URL)));
    es.push(entry("summary", Json::text("Dual-mode (TUI + agent-native CLI) mixer for PipeWire.")));
    es.push(entry("global_flags", Json::Array(flags_json)));
    es.push(entry("exit_codes", exit_codes()));
    es.push(entry("commands", Json::Array(commands_json)));
    proof {
        lemma_deep_object(es);
        assert(deep_entries(es@) =~= describe_model(t, fv)->Object_0);
    }
    Json::Object(es)
}


/// The items of an array value (empty for any other value).
pub open spec fn items_of(v: Option<JsonV>) -> Seq<JsonV> {
    match v {
        Some(JsonV::Array(items)) => items,
        _ => Seq::empty(),
    }
}

/// The schema and the manifest are generated from one table, so they never
/// drift apart: the schema has one branch per command and the manifest one
/// entry per command, in table order, each branch titled and each entry
/// named by its command; the table holds fourteen commands.
pub proof fn schema_and_describe_agree()
    ensures
        command_table().len() == 14,
        items_of(get_field(schema_model(command_table()), "oneOf"@)).len() == command_table().len(),
        items_of(get_field(describe_model(command_table(), global_flags()), "commands"@)).len() == command_table().len(),
        forall|i: int|
            0 <= i < command_table().len() ==> {
                &&& get_field(#[trigger] items_of(get_field(schema_model(command_table()), "oneOf"@))[i], "title"@) == Some(
                    JsonV::Str(command_table()[i].name),
                )
                &&& get_field(items_of(get_field(describe_model(command_table(), global_flags()), "commands"@))[i], "name"@)
                    == Some(JsonV::Str(command_table()[i].name))
            },
{
    reveal_strlit("$schema");
    reveal_strlit("$id");
    reveal_strlit("title");
    reveal_strlit("description");
    reveal_strlit("type");
    reveal_strlit("required");
    reveal_strlit("properties");
    reveal_strlit("oneOf");
    reveal_strlit("tool");
    reveal_strlit("version");
    reveal_strlit("maintainer");
    reveal_strlit("website");
    reveal_strlit("docs_url");
    reveal_strlit("summary");
    reveal_strlit("global_flags");
    reveal_strlit("exit_codes");
    reveal_strlit("commands");
    reveal_strlit("name");
    let t = command_table();
    let sm = schema_model(t)->Object_0;
    assert(sm[7].0 == "oneOf"@);
    assert forall|j: int| 0 <= j < 7 implies sm[j].0 != "oneOf"@ by {
        if j == 2 {
            assert(sm[j].0[0] != "oneOf"@[0]);
        } else {
            assert(sm[j].0.len() != "oneOf"@.len());
        }
    }
    lemma_first_key_at(sm, "oneOf"@, 7);
    let dm = describe_model(t, global_flags())->Object_0;
    assert(dm[8].0 == "commands"@);
    assert forall|j: int| 0 <= j < 8 implies dm[j].0 != "commands"@ by {
        if j == 4 {
            assert(dm[j].0[0] != "commands"@[0]);
        } else {
            assert(dm[j].0.len() != "commands"@.len());
        }
    }
    lemma_first_key_at(dm, "commands"@, 8);
    assert forall|i: int| 0 <= i < t.len() implies {
        &&& get_field(#[trigger] items_of(get_field(schema_model(t), "oneOf"@))[i], "title"@) == Some(JsonV::Str(t[i].name))
        &&& get_field(items_of(get_field(describe_model(t, global_flags()), "commands"@))[i], "name"@) == Some(JsonV::Str(t[i].name))
    } by {
        lemma_first_key_at(branch_model(t[i])->Object_0, "title"@, 0);
        lemma_first_key_at(describe_command_model(t[i])->Object_0, "name"@, 0);
    }
}

/// The keys of an object value, in order (empty for any other value).
pub open spec fn keys_of(v: Option<JsonV>) -> Seq<Seq<char>> {
    match v {
        Some(JsonV::Object(es)) => Seq::new(es.len(), |i: int| es[i].0),
        _ => Seq::empty(),
    }
}

/// The schema's branch and the manifest's entry of every command agree in
/// detail: the branch's description is the entry's summary; the branch's
/// properties are the entry's parameters, by name and in order, followed by
/// the `command` constant; and both documents carry the same exit codes.
pub proof fn schema_and_describe_agree_in_detail()
    ensures
        get_field(schema_model(command_table()), "x-exit-codes"@) == Some(exit_codes_model()),
        get_field(describe_model(command_table(), global_flags()), "exit_codes"@) == Some(exit_codes_model()),
        forall|i: int|
            0 <= i < command_table().len() ==> {
                let b = #[trigger] items_of(get_field(schema_model(command_table()), "oneOf"@))[i];
                let d = items_of(get_field(describe_model(command_table(), global_flags()), "commands"@))[i];
                let props = keys_of(get_field(b, "properties"@));
                let params = items_of(get_field(d, "params"@));
                &&& get_field(b, "description"@) == Some(JsonV::Str(command_table()[i].summary))
                &&& get_field(d, "summary"@) == Some(JsonV::Str(command_table()[i].summary))
                &&& props.len() == params.len() + 1
                &&& props.last() == "command"@
                &&& forall|k: int| 0 <= k < params.len() ==> get_field(#[trigger] params[k], "name"@) == Some(JsonV::Str(props[k]))
            },
{
    schema_and_describe_agree();
    reveal_strlit("$schema");
    reveal_strlit("$id");
    reveal_strlit("title");
    reveal_strlit("description");
    reveal_strlit("type");
    reveal_strlit("required");
    reveal_strlit("properties");
    reveal_strlit("oneOf");
    reveal_strlit("x-exit-codes");
    reveal_strlit("tool");
    reveal_strlit("version");
    reveal_strlit("maintainer");
    reveal_strlit("website");
    reveal_strlit("docs_url");
    reveal_strlit("summary");
    reveal_strlit("global_flags");
    reveal_strlit("exit_codes");
    reveal_strlit("commands");
    reveal_strlit("name");
    reveal_strlit("kind");
    reveal_strlit("params");
    reveal_strlit("command");
    let t = command_table();
    let sm = schema_model(t)->Object_0;
    assert forall|j: int| 0 <= j < 8 implies sm[j].0 != "x-exit-codes"@ by {
        assert(sm[j].0.len() != "x-exit-codes"@.len());
    }
    lemma_first_key_at(sm, "x-exit-codes"@, 8);
    let dm = describe_model(t, global_flags())->Object_0;
    assert forall|j: int| 0 <= j < 7 implies dm[j].0 != "exit_codes"@ by {
        if j == 2 {
            assert(dm[j].0[0] != "exit_codes"@[0]);
        } else {
            assert(dm[j].0.len() != "exit_codes"@.len());
        }
    }
    lemma_first_key_at(dm, "exit_codes"@, 7);
    assert forall|i: int| 0 <= i < t.len() implies {
        let b = #[trigger] items_of(get_field(schema_model(t), "oneOf"@))[i];
        let d = items_of(get_field(describe_model(t, global_flags()), "commands"@))[i];
        let props = keys_of(get_field(b, "properties"@));
        let params = items_of(get_field(d, "params"@));
        &&& get_field(b, "description"@) == Some(JsonV::Str(t[i].summary))
        &&& get_field(d, "summary"@) == Some(JsonV::Str(t[i].summary))
        &&& props.len() == params.len() + 1
        &&& props.last() == "command"@
        &&& forall|k: int| 0 <= k < params.len() ==> get_field(#[trigger] params[k], "name"@) == Some(JsonV::Str(props[k]))
    } by {
        let c = t[i];
        let be = branch_model(c)->Object_0;
        assert(be[0].0 != "description"@) by {
            assert(be[0].0.len() != "description"@.len());
        }
        lemma_first_key_at(be, "description"@, 1);
        assert forall|j: int| 0 <= j < 3 implies be[j].0 != "properties"@ by {
            assert(be[j].0.len() != "properties"@.len());
        }
        lemma_first_key_at(be, "properties"@, 3);
        let de = describe_command_model(c)->Object_0;
        assert(de[0].0 != "summary"@) by {
            assert(de[0].0.len() != "summary"@.len());
        }
        lemma_first_key_at(de, "summary"@, 1);
        assert forall|j: int| 0 <= j < 3 implies de[j].0 != "params"@ by {
            assert(de[j].0.len() != "params"@.len());
        }
        lemma_first_key_at(de, "params"@, 3);
        let params = Seq::new(c.params.len(), |k: int| describe_param_model(c.params[k]));
        assert forall|k: int| 0 <= k < params.len() implies get_field(#[trigger] params[k], "name"@) == Some(
            JsonV::Str(c.params[k].name),
        ) by {
            lemma_first_key_at(describe_param_model(c.params[k])->Object_0, "name"@, 0);
        }
    }
}

/// The position of a command in the table.
pub open spec fn table_index(v: Verb) -> int {
    match v {
        Verb::NodeList => 0,
        Verb::NodeGet => 1,
        Verb::NodeSetVolume => 2,
        Verb::NodeMute => 3,
        Verb::NodeSetDefault => 4,
        Verb::DeviceList => 5,
        Verb::DeviceGet => 6,
        Verb::DeviceSetProfile => 7,
        Verb::LinkList => 8,
        Verb::MetadataList => 9,
        Verb::MetadataGet => 10,
        Verb::ServerInfo => 11,
        Verb::Schema => 12,
        Verb::Describe => 13,
        Verb::NodeBalance => -1,
    }
}

/// The command at a position of the table.
pub open spec fn table_verb(i: int) -> Verb {
    if i == 0 {
        Verb::NodeList
    } else if i == 1 {
        Verb::NodeGet
    } else if i == 2 {
        Verb::NodeSetVolume
    } else if i == 3 {
        Verb::NodeMute
    } else if i == 4 {
        Verb::NodeSetDefault
    } else if i == 5 {
        Verb::DeviceList
    } else if i == 6 {
        Verb::DeviceGet
    } else if i == 7 {
        Verb::DeviceSetProfile
    } else if i == 8 {
        Verb::LinkList
    } else if i == 9 {
        Verb::MetadataList
    } else if i == 10 {
        Verb::MetadataGet
    } else if i == 11 {
        Verb::ServerInfo
    } else if i == 12 {
        Verb::Schema
    } else {
        Verb::Describe
    }
}

/// The table documents the commands the command line runs: every command
/// but the balance command has an entry, found under its own name; every
/// entry is such a command; and no two entries share a name.
pub proof fn table_documents_commands(v: Verb)
    ensures
        v != Verb::NodeBalance ==> 0 <= table_index(v) < command_table().len() && command_table()[table_index(v)].name
            == verb_name_v(v) && table_verb(table_index(v)) == v,
        forall|i: int|
            0 <= i < command_table().len() ==> table_verb(i) != Verb::NodeBalance && table_index(table_verb(i)) == i
                && verb_name_v(table_verb(i)) == #[trigger] command_table()[i].name,
        forall|i: int, j: int|
            0 <= i < j < command_table().len() ==> #[trigger] command_table()[i].name != #[trigger] command_table()[j].name,
{
    let t = command_table();
    reveal_strlit("node list");
    reveal_strlit("node get");
    reveal_strlit("node set-volume");
    reveal_strlit("node mute");
    reveal_strlit("node set-default");
    reveal_strlit("device list");
    reveal_strlit("device get");
    reveal_strlit("device set-profile");
    reveal_strlit("link list");
    reveal_strlit("metadata list");
    reveal_strlit("metadata get");
    reveal_strlit("server info");
    reveal_strlit("schema");
    reveal_strlit("describe");
    assert forall|i: int, j: int| 0 <= i < j < t.len() implies #[trigger] t[i].name != #[trigger] t[j].name by {
        let a = t[i].name;
        let b = t[j].name;
        if a.len() == b.len() && a[0] == b[0] && a[5] == b[5] {
            assert(a[6] != b[6]);
        }
    }
}

/// Distinct commands have distinct names.
proof fn lemma_verb_names_distinct(a: Verb, b: Verb)
    ensures
        a != b ==> verb_name_v(a) != verb_name_v(b),
{
    reveal_strlit("node list");
    reveal_strlit("node get");
    reveal_strlit("node set-volume");
    reveal_strlit("node balance");
    reveal_strlit("node mute");
    reveal_strlit("node set-default");
    reveal_strlit("device list");
    reveal_strlit("device get");
    reveal_strlit("device set-profile");
    reveal_strlit("link list");
    reveal_strlit("metadata list");
    reveal_strlit("metadata get");
    reveal_strlit("server info");
    reveal_strlit("schema");
    reveal_strlit("describe");
    if a != b {
        let x = verb_name_v(a);
        let y = verb_name_v(b);
        if x.len() == y.len() && x[0] == y[0] && x[5] == y[5] {
            assert(x[6] != y[6]);
        }
    }
}

/// Command labels: every command is reported as `wiremix ` followed by its
/// name, which for every command but the balance command is the name the
/// table lists for it; and distinct commands get distinct labels.
pub proof fn command_labels(a: Verb, b: Verb)
    ensures
        a != Verb::NodeBalance ==> "wiremix "@ + verb_name_v(a) == "wiremix "@ + command_table()[table_index(a)].name,
        a != b ==> "wiremix "@ + verb_name_v(a) != "wiremix "@ + verb_name_v(b),
{
    table_documents_commands(a);
    lemma_verb_names_distinct(a, b);
    let p = "wiremix "@;
    if a != b && p + verb_name_v(a) == p + verb_name_v(b) {
        assert((p + verb_name_v(a)).subrange(p.len() as int, (p + verb_name_v(a)).len() as int) =~= verb_name_v(a));
        assert((p + verb_name_v(b)).subrange(p.len() as int, (p + verb_name_v(b)).len() as int) =~= verb_name_v(b));
    }
}

} // verus!
