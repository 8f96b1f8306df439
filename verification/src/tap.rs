//! What the system-wide mouse tap does with each event it sees.
use vstd::prelude::*;

verus! {

/// The Core Graphics event type of a left mouse-down.
pub const LEFT_MOUSE_DOWN: u32 = 1;

/// The Core Graphics event flag of a held shift key.
pub const SHIFT_FLAG: u64 = 0x20000;

/// The event mask the tap listens with: left mouse-down only.
pub fn left_mouse_down_mask() -> (r: u64)
    ensures
        r == 2,
{
    let m: u64 = 1u64 << LEFT_MOUSE_DOWN;
    assert(1u64 << 1u32 == 2) by (bit_vector);
    m
}

/// What the tap does with an event.
#[derive(Debug, Clone, Copy, PartialEq, Eq, Structural)]
pub enum TapAction {
    /// Let the event reach the application under the cursor.
    PassThrough,
    /// Hand the click to the picker (with whether shift was held) and
    /// swallow the event.
    Consume { shift: bool },
}

/// Decides the fate of an event: a left mouse-down goes to the picker and is
/// swallowed while a picker callback is installed; everything else passes.
pub fn tap_decision(event_type: u32, flags: u64, has_callback: bool) -> (r: TapAction)
    ensures
        r == (if event_type == LEFT_MOUSE_DOWN && has_callback {
            TapAction::Consume { shift: flags & SHIFT_FLAG != 0 }
        } else {
            TapAction::PassThrough
        }),
{
    if event_type != LEFT_MOUSE_DOWN {
        return TapAction::PassThrough;
    }
    let shift = flags & SHIFT_FLAG != 0;
    if has_callback {
        TapAction::Consume { shift }
    } else {
        TapAction::PassThrough
    }
}

} // verus!
