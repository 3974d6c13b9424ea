//! Identity of one subscriber stream.

use vstd::prelude::*;

verus! {

/// A process-local identifier of one subscriber stream: monotonically
/// increasing and unique per listener instance, used only as a key of the
/// fan-out registry.
#[derive(Debug, Clone, Eq, Hash, PartialEq, Structural)]
pub struct StreamId(pub usize);

} // verus!
