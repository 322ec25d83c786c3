//! The editing core of a small full-screen terminal text editor: a buffer of
//! lines with a cursor, scroll offsets that follow the cursor, and a save mode
//! that sends key presses to a filename entry instead of the buffer.

use vstd::prelude::*;

pub mod editor;
pub mod text;
pub mod viewport;

verus! {

} // verus!
