//! Style values and how they are written as CSS text.

use vstd::prelude::*;

pub mod animations;
pub mod keyframes;
pub mod values;

verus! {

/// A value that has a CSS notation.
pub trait IntoCss: Sized {
    /// The CSS notation of the value.
    spec fn css(&self) -> Seq<char>;

    /// Writes the value as CSS text.
    fn into_css(self) -> (text: String)
        ensures
            text@ == self.css(),
    ;
}

} // verus!
