//! Classification of PipeWire nodes by their `media.class`.

use vstd::prelude::*;

use crate::text::same;

verus! {

/// A class whose nodes play into the session (application playback).
pub open spec fn is_sink_input_v(class: Seq<char>) -> bool {
    class == "Stream/Output/Audio"@
}

/// A class whose nodes record from the session (application recording).
pub open spec fn is_source_output_v(class: Seq<char>) -> bool {
    class == "Stream/Input/Audio"@
}

/// A class of output endpoints.
pub open spec fn is_sink_v(class: Seq<char>) -> bool {
    class == "Audio/Sink"@ || class == "Audio/Duplex"@
}

/// A class of input endpoints.
pub open spec fn is_source_v(class: Seq<char>) -> bool {
    class == "Audio/Source"@ || class == "Audio/Duplex"@ || class == "Audio/Source/Virtual"@
}

/// Whether nodes of `class` are application playback streams.
pub fn is_sink_input(class: &str) -> (r: bool)
    ensures
        r == is_sink_input_v(class@),
{
    same(class, "Stream/Output/Audio")
}

/// Whether nodes of `class` are application recording streams.
pub fn is_source_output(class: &str) -> (r: bool)
    ensures
        r == is_source_output_v(class@),
{
    same(class, "Stream/Input/Audio")
}

/// Whether nodes of `class` are output endpoints.
pub fn is_sink(class: &str) -> (r: bool)
    ensures
        r == is_sink_v(class@),
{
    same(class, "Audio/Sink") || same(class, "Audio/Duplex")
}

/// Whether nodes of `class` are input endpoints.
pub fn is_source(class: &str) -> (r: bool)
    ensures
        r == is_source_v(class@),
{
    same(class, "Audio/Source") || same(class, "Audio/Duplex") || same(class, "Audio/Source/Virtual")
}

} // verus!
