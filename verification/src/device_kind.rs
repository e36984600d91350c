//! Whether a device endpoint is a sink or a source.

use vstd::prelude::*;

verus! {

/// Kind of default endpoint a node can be made.
#[derive(Debug, Clone, Copy, PartialEq, Eq, Structural)]
pub enum DeviceKind {
    Sink,
    Source,
}

} // verus!
