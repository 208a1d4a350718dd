use vstd::prelude::*;

verus! {

/// Notification that the number of collected peppers changed; carries the new
/// total.
#[derive(Debug, Clone, Copy, PartialEq, Eq, Structural)]
pub struct UpdatePepperCountEvent(pub u32);

/// Notification that the player's hit points changed; carries the new value,
/// in hundredths of a point.
#[derive(Debug, Clone, Copy, PartialEq, Eq, Structural)]
pub struct UpdateHealthPointsEvent(pub i64);

} // verus!
