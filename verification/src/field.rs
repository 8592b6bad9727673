//! The dimensions of the play field and of what stands on it, in field units.

use vstd::prelude::*;

verus! {

/// Width of the play field.
pub const FIELD_WIDTH: i32 = 640;

/// Height of the play field.
pub const FIELD_HEIGHT: i32 = 350;

/// The line on which every building stands.
pub const BOTTOM_LINE: i32 = 335;

/// Lower edge of the band that the sun occupies at the top of the field.
pub const SUN_HEIGHT: i32 = 39;

/// Horizontal centre of the sun.
pub const SUN_CENTRE_X: i32 = 320;

/// Height of a character standing on a roof.
pub const CHARACTER_HEIGHT: i32 = 25;

/// The margin kept free below the sun's band.
pub const SUN_MARGIN: i32 = 10;

/// No roof lies above this line: the sun's band, the margin and one character
/// height below it stay free of buildings.
pub const ROOF_CEILING: i32 = SUN_HEIGHT + SUN_MARGIN + CHARACTER_HEIGHT;

/// Number of slots in a column index; slot 0 is never used.
pub const INDEX_SLOTS: usize = 31;

} // verus!
