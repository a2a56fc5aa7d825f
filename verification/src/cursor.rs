//! The cursor broadcaster: what one tick of its loop publishes.

use vstd::prelude::*;

verus! {

/// Name of the event under which cursor samples are published.
pub const CURSOR_POSITION_EVENT: &'static str = "mouse_position";

/// Pause between two samples, in milliseconds.
pub const SAMPLE_INTERVAL_MS: u64 = 10;

/// A cursor position in screen coordinates.
#[derive(Clone, Copy, Debug, PartialEq, Eq, Structural)]
pub struct CursorSample {
    pub x: i32,
    pub y: i32,
}

/// What the platform answered when asked where the cursor is.
#[derive(Clone, Copy, Debug, PartialEq, Eq, Structural)]
pub enum CursorReading {
    /// The cursor is at this position.
    At { x: i32, y: i32 },
    /// The platform had no position to report.
    Unavailable,
}

/// What the broadcaster does in one round of its loop.
#[derive(Clone, Copy, Debug, PartialEq, Eq, Structural)]
pub struct Tick {
    /// The sample to publish to every listener, if there is one.
    pub publish: Option<CursorSample>,
    /// How long to sleep before the next round, in milliseconds.
    pub sleep_ms: u64,
}

/// The sample that a reading stands for: the position it carries, or nothing.
pub open spec fn sample_of(reading: CursorReading) -> Option<CursorSample> {
    match reading {
        CursorReading::At { x, y } => Some(CursorSample { x, y }),
        CursorReading::Unavailable => None,
    }
}

/// One round of the broadcaster: a position is published as it was read, an
/// unavailable reading publishes nothing, and either way the loop sleeps for
/// the fixed interval and goes on.
pub fn tick(reading: CursorReading) -> (t: Tick)
    ensures
        t.publish == sample_of(reading),
        t.sleep_ms == SAMPLE_INTERVAL_MS,
{
    let publish = match reading {
        CursorReading::At { x, y } => Some(CursorSample { x, y }),
        CursorReading::Unavailable => None,
    };
    Tick { publish, sleep_ms: SAMPLE_INTERVAL_MS }
}

} // verus!
