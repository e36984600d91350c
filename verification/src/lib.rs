//! wiremix: the verified core of a dual-mode PipeWire mixer's command line.
//!
//! The library holds the command-line contract of the mixer: exit codes and
//! structured errors, the JSON response envelope, output-mode resolution,
//! field projection, the schema/describe documents, target resolution and
//! the projection of the session view into stable data-transfer objects.

pub mod capture;
pub mod cli;
pub mod json;
pub mod keyed;
pub mod tabs;
pub mod text;
pub mod device_kind;
pub mod view;
pub mod wirehose;
