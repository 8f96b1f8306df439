//! How the picker overlay window is made to float over every Space,
//! full-screen applications included.
use vstd::prelude::*;

verus! {

/// `NSWindowCollectionBehaviorCanJoinAllSpaces`.
pub const CAN_JOIN_ALL_SPACES: u64 = 1;
/// `NSWindowCollectionBehaviorTransient`.
pub const TRANSIENT: u64 = 8;
/// `NSWindowCollectionBehaviorFullScreenAuxiliary`.
pub const FULL_SCREEN_AUXILIARY: u64 = 256;
/// `NSScreenSaverWindowLevel`: above full-screen applications, the menu
/// bar and status items.
pub const SCREEN_SAVER_LEVEL: i64 = 1000;

/// The collection behaviour of the overlay: the window's current behaviour
/// with the three overlay bits added, and nothing taken away.
pub fn overlay_collection_behavior(current: u64) -> (r: u64)
    ensures
        r == current | CAN_JOIN_ALL_SPACES | FULL_SCREEN_AUXILIARY | TRANSIENT,
        r & current == current,
        r & CAN_JOIN_ALL_SPACES != 0,
        r & TRANSIENT != 0,
        r & FULL_SCREEN_AUXILIARY != 0,
{
    let r = current | CAN_JOIN_ALL_SPACES | FULL_SCREEN_AUXILIARY | TRANSIENT;
    assert(r & current == current && r & 1 != 0 && r & 8 != 0 && r & 256 != 0) by (bit_vector)
        requires r == current | 1u64 | 256u64 | 8u64;
    r
}

} // verus!
