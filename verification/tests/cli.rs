//! Tests for the command line's pure logic (no PipeWire connection required).

use wiremix::cli::envelope::{self, Response};
use wiremix::cli::error::{AppError, ErrorCode, ExitCode};
use wiremix::cli::output::{self, Format, Mode, Resolved};
use wiremix::cli::schema;
use wiremix::json::Json;

fn obj(entries: Vec<(&str, Json)>) -> Json {
    Json::Object(entries.into_iter().map(|(k, v)| (k.to_string(), v)).collect())
}

#[test]
fn resolve_explicit_json_wins() {
    assert_eq!(output::resolve(true, None, false, true), Resolved::Output(Mode::Json));
}

#[test]
fn resolve_explicit_format() {
    assert_eq!(
        output::resolve(false, Some(Format::Jsonl), false, true),
        Resolved::Output(Mode::Jsonl)
    );
    assert_eq!(output::resolve(false, Some(Format::Explore), false, true), Resolved::Tui);
}

#[test]
fn fields_projection_keeps_only_requested() {
    let mut value = Json::Array(vec![
        obj(vec![("a", Json::Int(1)), ("b", Json::Int(2)), ("c", Json::Int(3))]),
        obj(vec![("a", Json::Int(4)), ("b", Json::Int(5))]),
    ]);
    output::project_fields(&mut value, &[String::from("a"), String::from("c")]);
    assert_eq!(
        value,
        Json::Array(vec![
            obj(vec![("a", Json::Int(1)), ("c", Json::Int(3))]),
            obj(vec![("a", Json::Int(4))]),
        ])
    );
}

#[test]
fn exit_code_mapping() {
    assert_eq!(ExitCode::NotFound.code(), 3);
    assert_eq!(ErrorCode::NotFound.exit(), ExitCode::NotFound);
    assert_eq!(AppError::not_found("x").exit_code().code(), 3);
    assert_eq!(AppError::usage("x").exit_code().code(), 2);
    assert_eq!(AppError::unavailable("x").exit_code().code(), 1);
}

#[test]
fn timestamp_is_iso8601_utc_seconds() {
    let stamp = envelope::now().expect("the clock reads as a timestamp");
    assert_eq!(stamp.len(), 20, "expected YYYY-MM-DDTHH:MM:SSZ, got {stamp}");
    assert!(stamp.ends_with('Z'));
    assert!(stamp.contains('T'));
}

#[test]
fn envelope_attribution() {
    let response = Response::new("wiremix server info", obj(vec![("ok", Json::Bool(true))]))
        .expect("the clock reads as a timestamp")
        .with_attribution();
    assert_eq!(response.metadata.tool, "wiremix");
    assert!(response.metadata.maintainer.is_some());
    assert!(response.metadata.website.is_some());
}

#[test]
fn schema_is_draft_2020_12() {
    let schema = schema::schema();
    assert_eq!(
        schema.get("$schema"),
        Some(&Json::Str(String::from("https://json-schema.org/draft/2020-12/schema")))
    );
    assert_eq!(
        schema.get("oneOf").and_then(Json::as_array).expect("oneOf array").len(),
        14
    );
}

#[test]
fn describe_lists_every_command() {
    let describe = schema::describe();
    assert_eq!(describe.get("tool"), Some(&Json::Str(String::from("wiremix"))));
    assert_eq!(
        describe
            .get("commands")
            .and_then(Json::as_array)
            .expect("commands array")
            .len(),
        14
    );
}
