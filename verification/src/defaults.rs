//! Fixed settings of the mirror.
use vstd::prelude::*;

verus! {

/// The application's name; the keyboard shortcut is registered under it.
pub const APPLICATION_NAME: &'static str = "FRACTURE";

/// Extra width and height, in pixels, that the window has around the frame
/// while the user selects a crop.
pub const SELECTION_WINDOW_OFFSETS: (u32, u32) = (60, 60);

} // verus!
