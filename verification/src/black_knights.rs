//! The black knight raiding party that appears outside the gates while a
//! siege runs.

use vstd::prelude::*;

verus! {

/// Level of the rank-and-file black knights.
pub const BLACK_KNIGHT_LEVEL: i32 = 70;

/// How many black knights appear.
pub const BLACK_KNIGHT_COUNT: i32 = 10;

/// Level of the rebel boss Cerenis; drops weapon and armor scrolls.
pub const CERENIS_LEVEL: i32 = 70;

/// Level of the rebel boss Ken Rauhel; drops weapon and armor scrolls.
pub const KEN_RAUHEL_LEVEL: i32 = 70;

} // verus!
