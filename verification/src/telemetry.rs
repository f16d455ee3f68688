//! Telemetry identifiers and pipeline stages.

use vstd::prelude::*;

verus! {

/// Unique identifier for a stream/layer.
#[derive(Debug, Clone, Copy, PartialEq, Eq, Hash, Structural)]
pub struct StreamId(pub u64);

impl StreamId {
    /// The stream with the given number.
    pub fn new(id: u64) -> (s: Self)
        ensures
            s.0 == id,
    {
        StreamId(id)
    }
}

/// Pipeline processing stages.
#[derive(Debug, Clone, Copy, PartialEq, Eq, Structural)]
pub enum PipelineStage {
    Decode,
    ColorConversion,
    Transfer,
    Render,
    Present,
}

/// Console logger telemetry sink (for debugging); it prints each event.
pub struct ConsoleLogger;

} // verus!
