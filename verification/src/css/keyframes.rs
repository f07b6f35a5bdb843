//! Named keyframe sets.

use crate::css::values::CssPropertyValue;
use crate::css::IntoCss;
use vstd::prelude::*;

verus! {

/// The name of a set of keyframes.
#[derive(Debug, Clone, Copy)]
pub struct KeyFrame(pub &'static str);

impl IntoCss for KeyFrame {
    open spec fn css(&self) -> Seq<char> {
        self.0@
    }

    fn into_css(self) -> (text: String) {
        self.0.to_owned()
    }
}

impl CssPropertyValue for KeyFrame {
    type Kind = KeyFrame;
}

} // verus!
