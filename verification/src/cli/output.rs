//! Output-mode detection and field projection.

use vstd::prelude::*;

use crate::json::{deep_entries, deep_items, lemma_deep_array, lemma_deep_entries_push, lemma_deep_items_push, lemma_deep_object, Json, JsonV};
use crate::text::same;

verus! {

/// The `--format` values accepted by every command.
#[derive(Debug, Clone, Copy, PartialEq, Eq, Structural)]
pub enum Format {
    Json,
    Jsonl,
    Explore,
}

/// `--color` control. Output is plain text, so this is accepted for
/// compatibility and has no visible effect.
#[derive(Debug, Clone, Copy, PartialEq, Eq, Structural)]
pub enum ColorWhen {
    Never,
    Always,
    Auto,
}

/// The rendering of a one-shot command.
#[derive(Debug, Clone, Copy, PartialEq, Eq, Structural)]
pub enum Mode {
    Human,
    Json,
    Jsonl,
}

/// Outcome of output-mode detection.
#[derive(Debug, Clone, Copy, PartialEq, Eq, Structural)]
pub enum Resolved {
    /// Run the interactive interface (`--format explore`).
    Tui,
    /// Produce one-shot output in the given mode.
    Output(Mode),
}

/// The detection cascade; the first match wins: the `--json` flag, an
/// explicit `--format`, an agent environment, a terminal on stdout, and
/// otherwise machine output.
pub open spec fn resolve_v(json: bool, format: Option<Format>, agent: bool, stdout_is_terminal: bool) -> Resolved {
    if json {
        Resolved::Output(Mode::Json)
    } else if format is Some {
        match format->0 {
            Format::Json => Resolved::Output(Mode::Json),
            Format::Jsonl => Resolved::Output(Mode::Jsonl),
            Format::Explore => Resolved::Tui,
        }
    } else if agent {
        Resolved::Output(Mode::Json)
    } else if stdout_is_terminal {
        Resolved::Output(Mode::Human)
    } else {
        Resolved::Output(Mode::Json)
    }
}

/// Resolve the effective output mode from the flags, whether an agent
/// environment asks for machine output, and whether stdout is a terminal.
pub fn resolve(json: bool, format: Option<Format>, agent: bool, stdout_is_terminal: bool) -> (r: Resolved)
    ensures
        r == resolve_v(json, format, agent, stdout_is_terminal),
{
    if json {
        return Resolved::Output(Mode::Json);
    }
    if let Some(format) = format {
        return match format {
            Format::Json => Resolved::Output(Mode::Json),
            Format::Jsonl => Resolved::Output(Mode::Jsonl),
            Format::Explore => Resolved::Tui,
        };
    }
    if agent {
        return Resolved::Output(Mode::Json);
    }
    if stdout_is_terminal {
        Resolved::Output(Mode::Human)
    } else {
        Resolved::Output(Mode::Json)
    }
}

/// An environment value asks for machine mode when it is set, non-empty,
/// and neither `0` nor `false`.
pub open spec fn env_true_v(value: Option<Seq<char>>) -> bool {
    match value {
        Some(v) => v.len() > 0 && v != "0"@ && v != "false"@,
        None => false,
    }
}

/// The view of an optional text.
pub open spec fn opt_text(o: Option<&str>) -> Option<Seq<char>> {
    match o {
        Some(s) => Some(s@),
        None => None,
    }
}

/// Whether an environment value (`None` when unset) asks for machine mode.
pub fn env_true(value: Option<&str>) -> (r: bool)
    ensures
        r == env_true_v(opt_text(value)),
{
    match value {
        Some(v) => v.unicode_len() > 0 && !same(v, "0") && !same(v, "false"),
        None => false,
    }
}

/// Whether an agent or automation environment requests machine mode, given
/// the values of `AI_AGENT`, `AGENT` and `CI`.
pub fn agent_env(ai_agent: Option<&str>, agent: Option<&str>, ci: Option<&str>) -> (r: bool)
    ensures
        r == (env_true_v(opt_text(ai_agent)) || env_true_v(opt_text(agent)) || env_true_v(opt_text(ci))),
{
    env_true(ai_agent) || env_true(agent) || env_true(ci)
}

/// Field names a projection keeps.
pub open spec fn field_names(fields: Seq<String>) -> Seq<Seq<char>> {
    Seq::new(fields.len(), |i: int| fields[i]@)
}

/// Whether an object entry is kept.
pub open spec fn keeps(names: Seq<Seq<char>>) -> spec_fn((Seq<char>, JsonV)) -> bool {
    |e: (Seq<char>, JsonV)| names.contains(e.0)
}

/// An object keeps only the named entries, in order; any other value is
/// left as it is.
pub open spec fn retain_model(v: JsonV, names: Seq<Seq<char>>) -> JsonV {
    match v {
        JsonV::Object(es) => JsonV::Object(es.filter(keeps(names))),
        other => other,
    }
}

/// A projection applies to every item of an array, or else to the value
/// itself.
pub open spec fn project_model(v: JsonV, names: Seq<Seq<char>>) -> JsonV {
    match v {
        JsonV::Array(items) => JsonV::Array(Seq::new(items.len(), |i: int| retain_model(items[i], names))),
        other => retain_model(other, names),
    }
}

fn is_field(fields: &[String], key: &str) -> (r: bool)
    ensures
        r == field_names(fields@).contains(key@),
{
    let mut i: usize = 0;
    while i < fields.len()
        invariant
            i <= fields@.len(),
            forall|j: int| 0 <= j < i ==> fields@[j]@ != key@,
        decreases fields@.len() - i,
    {
        if same(fields[i].as_str(), key) {
            assert(field_names(fields@)[i as int] == key@);
            return true;
        }
        i += 1;
    }
    assert(!field_names(fields@).contains(key@)) by {
        if field_names(fields@).contains(key@) {
            let j = choose|j: int| 0 <= j < field_names(fields@).len() && field_names(fields@)[j] == key@;
            assert(fields@[j]@ == key@);
        }
    }
    false
}

fn retain(value: Json, fields: &[String]) -> (r: Json)
    ensures
        r.deep() == retain_model(value.deep(), field_names(fields@)),
{
    match value {
        Json::Object(entries) => {
            let ghost orig = entries@;
            let ghost names = field_names(fields@);
            let n = entries.len();
            let mut rest = entries;
            let mut out: Vec<(String, Json)> = Vec::new();
            let mut k: usize = 0;
            while rest.len() > 0
                invariant
                    orig.len() == n,
                    names == field_names(fields@),
                    k + rest@.len() == orig.len(),
                    rest@ == orig.subrange(k as int, orig.len() as int),
                    deep_entries(out@) == deep_entries(orig.subrange(0, k as int)).filter(keeps(names)),
                decreases rest@.len(),
            {
                let e = rest.remove(0);
                let keep = is_field(fields, e.0.as_str());
                proof {
                    assert(e == orig[k as int]);
                    assert(orig.subrange(0, k + 1) =~= orig.subrange(0, k as int).push(e));
                    lemma_deep_entries_push(orig.subrange(0, k as int), e);
                    deep_entries(orig.subrange(0, k as int)).lemma_filter_push((e.0@, e.1.deep()), keeps(names));
                    assert(rest@ =~= orig.subrange(k + 1, orig.len() as int));
                }
                let ghost prefix = deep_entries(orig.subrange(0, k as int));
                let ghost x = (e.0@, e.1.deep());
                assert(deep_entries(orig.subrange(0, k + 1)) == prefix.push(x));
                assert(keeps(names)(x) == keep);
                if keep {
                    proof {
                        lemma_deep_entries_push(out@, e);
                    }
                    out.push(e);
                }
                assert(deep_entries(out@) == prefix.push(x).filter(keeps(names)));
                k += 1;
            }
            proof {
                assert(orig.subrange(0, k as int) =~= orig);
                lemma_deep_object(out);
                lemma_deep_object(entries);
            }
            Json::Object(out)
        },
        other => other,
    }
}

/// Restrict every record in `value` to the named fields: each item of an
/// array, or else the value itself. Objects keep only the named entries;
/// other values are left untouched.
pub fn project_fields(value: &mut Json, fields: &[String])
    ensures
        final(value).deep() == project_model(old(value).deep(), field_names(fields@)),
{
    let mut taken = Json::Null;
    std::mem::swap(&mut taken, value);
    let ghost names = field_names(fields@);
    let result = match taken {
        Json::Array(items) => {
            let ghost orig = items@;
            let n = items.len();
            let mut rest = items;
            let mut out: Vec<Json> = Vec::new();
            let mut k: usize = 0;
            while rest.len() > 0
                invariant
                    orig.len() == n,
                    names == field_names(fields@),
                    k + rest@.len() == orig.len(),
                    rest@ == orig.subrange(k as int, orig.len() as int),
                    deep_items(out@) == Seq::new(k as nat, |i: int| retain_model(orig[i].deep(), names)),
                decreases rest@.len(),
            {
                let item = rest.remove(0);
                assert(item == orig[k as int]);
                let kept = retain(item, fields);
                assert(kept.deep() == retain_model(orig[k as int].deep(), names));
                proof {
                    lemma_deep_items_push(out@, kept);
                    assert(rest@ =~= orig.subrange(k + 1, orig.len() as int));
                }
                let ghost before = out@;
                out.push(kept);
                proof {
                    assert(out@ == before.push(kept));
                    assert(deep_items(out@) == deep_items(before).push(kept.deep()));
                    assert(deep_items(out@) =~= Seq::new((k + 1) as nat, |i: int| retain_model(orig[i].deep(), names)));
                }
                k += 1;
            }
            proof {
                lemma_deep_array(out);
                lemma_deep_array(items);
                assert(deep_items(orig) =~= Seq::new(orig.len(), |i: int| orig[i].deep()));
                assert(deep_items(out@) =~= Seq::new(deep_items(orig).len(), |i: int| retain_model(deep_items(orig)[i], names)));
            }
            Json::Array(out)
        },
        other => retain(other, fields),
    };
    *value = result;
}

/// `i` is the first position of an entry with key `key`.
pub open spec fn is_first_key(es: Seq<(Seq<char>, JsonV)>, key: Seq<char>, i: int) -> bool {
    &&& 0 <= i < es.len()
    &&& es[i].0 == key
    &&& forall|j: int| 0 <= j < i ==> es[j].0 != key
}

/// The first position of an entry with key `key`, if any.
pub open spec fn key_position(es: Seq<(Seq<char>, JsonV)>, key: Seq<char>) -> Option<int> {
    if exists|i: int| is_first_key(es, key, i) {
        Some(choose|i: int| is_first_key(es, key, i))
    } else {
        None
    }
}

/// An entry with key `key` that no earlier entry shares is where the key
/// is found.
pub proof fn lemma_first_key_at(es: Seq<(Seq<char>, JsonV)>, key: Seq<char>, i: int)
    requires
        0 <= i < es.len(),
        es[i].0 == key,
        forall|j: int| 0 <= j < i ==> es[j].0 != key,
    ensures
        key_position(es, key) == Some(i),
{
    assert(is_first_key(es, key, i));
    let k = choose|k: int| is_first_key(es, key, k);
    if k < i {
        assert(es[k].0 != key);
    } else if k > i {
        assert(es[i].0 == key);
    }
}

/// The value under `key` in an object (its first entry), if any.
pub open spec fn get_field(v: JsonV, key: Seq<char>) -> Option<JsonV> {
    match v {
        JsonV::Object(es) => match key_position(es, key) {
            Some(i) => Some(es[i].1),
            None => None,
        },
        _ => None,
    }
}

/// A response with its `data` restricted to the named fields (when fields
/// were asked for and the response has data).
pub open spec fn with_projected_data(v: JsonV, names: Option<Seq<Seq<char>>>) -> JsonV {
    match names {
        None => v,
        Some(names) => match v {
            JsonV::Object(es) => match key_position(es, "data"@) {
                Some(i) => JsonV::Object(es.update(i, ("data"@, project_model(es[i].1, names)))),
                None => v,
            },
            _ => v,
        },
    }
}

/// The records a response is emitted as: the whole response in JSON and
/// human mode; in JSON Lines mode, each item of an array `data`, or the
/// `data` itself, or the whole response when it has no data.
pub open spec fn records_v(v: JsonV, mode: Mode) -> Seq<JsonV> {
    match mode {
        Mode::Jsonl => match get_field(v, "data"@) {
            Some(JsonV::Array(items)) => items,
            Some(other) => seq![other],
            None => seq![v],
        },
        _ => seq![v],
    }
}

/// The field names asked for, if any.
pub open spec fn opt_field_names(fields: Option<&[String]>) -> Option<Seq<Seq<char>>> {
    match fields {
        Some(f) => Some(field_names(f@)),
        None => None,
    }
}

fn find_key(es: &Vec<(String, Json)>, key: &str) -> (r: Option<usize>)
    ensures
        match r {
            Some(i) => key_position(deep_entries(es@), key@) == Some(i as int),
            None => key_position(deep_entries(es@), key@) is None,
        },
{
    let ghost d = deep_entries(es@);
    let mut i: usize = 0;
    while i < es.len()
        invariant
            d == deep_entries(es@),
            i <= es@.len(),
            forall|j: int| 0 <= j < i ==> d[j].0 != key@,
        decreases es@.len() - i,
    {
        if same(es[i].0.as_str(), key) {
            assert(is_first_key(d, key@, i as int));
            proof {
                let k = choose|k: int| is_first_key(d, key@, k);
                if k < i {
                    assert(d[k].0 != key@);
                } else if k > i {
                    assert(d[i as int].0 == key@);
                }
            }
            return Some(i);
        }
        i += 1;
    }
    assert(!exists|k: int| is_first_key(d, key@, k));
    None
}

fn project_data(value: Json, fields: &[String]) -> (r: Json)
    ensures
        r.deep() == with_projected_data(value.deep(), Some(field_names(fields@))),
{
    match value {
        Json::Object(es) => {
            proof {
                lemma_deep_object(es);
            }
            match find_key(&es, "data") {
                Some(i) => {
                    let ghost before = es@;
                    let mut es = es;
                    let (key, mut data) = es.remove(i);
                    project_fields(&mut data, fields);
                    es.insert(i, (key, data));
                    proof {
                        assert(es@ =~= before.update(i as int, (key, data)));
                        lemma_deep_object(es);
                        assert(key@ == "data"@) by {
                            assert(deep_entries(before)[i as int].0 == key@);
                        }
                        assert(deep_entries(es@) =~= deep_entries(before).update(i as int, ("data"@, project_model(deep_entries(before)[i as int].1, field_names(fields@)))));
                    }
                    Json::Object(es)
                },
                None => Json::Object(es),
            }
        },
        other => other,
    }
}

fn take_records(value: Json, mode: Mode) -> (r: Vec<Json>)
    ensures
        deep_items(r@) == records_v(value.deep(), mode),
{
    let ghost v = value.deep();
    match mode {
        Mode::Jsonl => {},
        _ => {
            let out = vec![value];
            proof {
                assert(deep_items(out@) =~= seq![v]);
            }
            return out;
        },
    }
    match value {
        Json::Object(es) => {
            proof {
                lemma_deep_object(es);
            }
            match find_key(&es, "data") {
                Some(i) => {
                    let ghost before = es@;
                    let mut es = es;
                    let (_, data) = es.remove(i);
                    assert(deep_entries(before)[i as int].1 == data.deep());
                    match data {
                        Json::Array(items) => {
                            proof {
                                lemma_deep_array(items);
                            }
                            items
                        },
                        other => {
                            let out = vec![other];
                            proof {
                                assert(deep_items(out@) =~= seq![other.deep()]);
                            }
                            out
                        },
                    }
                },
                None => {
                    let out = vec![Json::Object(es)];
                    proof {
                        assert(deep_items(out@) =~= seq![v]);
                    }
                    out
                },
            }
        },
        other => {
            let out = vec![other];
            proof {
                assert(deep_items(out@) =~= seq![v]);
            }
            out
        },
    }
}

/// The records to emit for a response `value` in `mode`, after restricting
/// its data to `fields` when given.
pub fn output_records(value: Json, mode: Mode, fields: Option<&[String]>) -> (r: Vec<Json>)
    ensures
        deep_items(r@) == records_v(with_projected_data(value.deep(), opt_field_names(fields)), mode),
{
    let v = match fields {
        Some(f) => project_data(value, f),
        None => value,
    };
    take_records(v, mode)
}

/// The record terminator: NUL with `--print0`, else a newline.
pub fn terminator(print0: bool) -> (r: char)
    ensures
        r == (if print0 { '\0' } else { '\n' }),
{
    if print0 {
        '\0'
    } else {
        '\n'
    }
}

/// Filtering twice by the same test is filtering once.
proof fn lemma_filter_idempotent<A>(s: Seq<A>, p: spec_fn(A) -> bool)
    ensures
        s.filter(p).filter(p) == s.filter(p),
    decreases s.len(),
{
    if s.len() == 0 {
        assert(s.filter(p) =~= s) by {
            reveal(Seq::filter);
        }
    } else {
        let init = s.drop_last();
        lemma_filter_idempotent(init, p);
        assert(s =~= init.push(s.last()));
        init.lemma_filter_push(s.last(), p);
        if p(s.last()) {
            init.filter(p).lemma_filter_push(s.last(), p);
        }
    }
}

/// Every entry left by filtering passes the test.
proof fn lemma_filter_all<A>(s: Seq<A>, p: spec_fn(A) -> bool)
    ensures
        forall|i: int| 0 <= i < s.filter(p).len() ==> p(#[trigger] s.filter(p)[i]),
{
    broadcast use vstd::seq_lib::group_filter_ensures;
}

/// An object holds only the named keys (any other value qualifies).
pub open spec fn only_named(x: JsonV, names: Seq<Seq<char>>) -> bool {
    match x {
        JsonV::Object(es) => forall|j: int| 0 <= j < es.len() ==> names.contains(#[trigger] es[j].0),
        _ => true,
    }
}

/// Projection laws: every object record left by a projection holds only
/// requested fields, and projecting again with the same fields changes
/// nothing.
pub proof fn projection_keeps_only_requested(v: JsonV, names: Seq<Seq<char>>)
    ensures
        project_model(project_model(v, names), names) == project_model(v, names),
        only_named(project_model(v, names), names),
        project_model(v, names) matches JsonV::Array(items) ==> forall|i: int| 0 <= i < items.len() ==> only_named(#[trigger] items[i], names),
{
    assert forall|x: JsonV| #[trigger] retain_model(retain_model(x, names), names) == retain_model(x, names) by {
        match x {
            JsonV::Object(es) => {
                lemma_filter_idempotent(es, keeps(names));
            },
            _ => {},
        }
    }
    assert forall|x: JsonV| only_named(#[trigger] retain_model(x, names), names) by {
        match x {
            JsonV::Object(es) => {
                lemma_filter_all(es, keeps(names));
            },
            _ => {},
        }
    }
    match v {
        JsonV::Array(items) => {
            let once = Seq::new(items.len(), |i: int| retain_model(items[i], names));
            assert(Seq::new(once.len(), |i: int| retain_model(once[i], names)) =~= once);
        },
        _ => {},
    }
}

/// Output-mode laws: `--json` always gives JSON; otherwise an explicit
/// `--format` decides, whatever the environment and the terminal (`json`
/// gives JSON, `jsonl` JSON lines, `explore` the interactive interface);
/// only without either flag does an agent environment give JSON, and only
/// without that does a terminal give human output; anything else gives
/// JSON.
pub proof fn resolve_laws(json: bool, format: Option<Format>, agent: bool, stdout_is_terminal: bool)
    ensures
        json ==> resolve_v(json, format, agent, stdout_is_terminal) == Resolved::Output(Mode::Json),
        !json && format == Some(Format::Json) ==> resolve_v(json, format, agent, stdout_is_terminal) == Resolved::Output(
            Mode::Json,
        ),
        !json && format == Some(Format::Jsonl) ==> resolve_v(json, format, agent, stdout_is_terminal) == Resolved::Output(
            Mode::Jsonl,
        ),
        !json && format == Some(Format::Explore) ==> resolve_v(json, format, agent, stdout_is_terminal) == Resolved::Tui,
        !json && format is None && agent ==> resolve_v(json, format, agent, stdout_is_terminal) == Resolved::Output(
            Mode::Json,
        ),
        !json && format is None && !agent ==> resolve_v(json, format, agent, stdout_is_terminal) == Resolved::Output(
            if stdout_is_terminal {
                Mode::Human
            } else {
                Mode::Json
            },
        ),
        resolve_v(json, format, agent, stdout_is_terminal) == Resolved::Tui <==> (!json && format == Some(Format::Explore)),
{
}

} // verus!
