//! The colours of the game, as red, green and blue from 0 to 255.

use vstd::prelude::*;

verus! {

pub const BLACK: (u8, u8, u8) = (0, 0, 0);

pub const IVORY: (u8, u8, u8) = (255, 255, 240);

pub const DARKBLUE: (u8, u8, u8) = (0, 0, 139);

} // verus!
