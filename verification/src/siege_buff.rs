//! The "king's guard" buff granted automatically to clan members of
//! sufficient rank inside a siege area.

use vstd::prelude::*;

verus! {

/// Flat attack bonus granted by the buff.
pub const KINGS_GUARD_ATK_BONUS: i32 = 30;

/// Lowest clan rank (elite knight and above) that receives the buff.
pub const MIN_CLAN_RANK: i32 = 6;

} // verus!
