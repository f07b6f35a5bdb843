//! The `animation` shorthand.

use crate::css::keyframes::KeyFrame;
pub use crate::css::values::{
    AnimationDirection, AnimationFillMode, AnimationIterationCount, AnimationState,
    EasingFunction,
};
use crate::css::values::{zero_duration, CssPropertyValue};
use crate::css::IntoCss;
use std::time::Duration;
use vstd::prelude::*;

verus! {

/// A CSS animation: the value of each longhand of the `animation`
/// shorthand, as CSS text.
pub struct Animation {
    name: String,
    duration: String,
    easing: String,
    delay: String,
    iteration_count: String,
    direction: String,
    fill_mode: String,
    state: String,
}

/// The CSS text of each longhand of an animation.
pub struct AnimationView {
    pub name: Seq<char>,
    pub duration: Seq<char>,
    pub easing: Seq<char>,
    pub delay: Seq<char>,
    pub iteration_count: Seq<char>,
    pub direction: Seq<char>,
    pub fill_mode: Seq<char>,
    pub state: Seq<char>,
}

impl View for Animation {
    type V = AnimationView;

    closed spec fn view(&self) -> AnimationView {
        AnimationView {
            name: self.name@,
            duration: self.duration@,
            easing: self.easing@,
            delay: self.delay@,
            iteration_count: self.iteration_count@,
            direction: self.direction@,
            fill_mode: self.fill_mode@,
            state: self.state@,
        }
    }
}

/// The animation that plays the keyframes `name` for `duration`, with the
/// initial value of every other longhand.
pub open spec fn default_animation(name: Seq<char>, duration: Seq<char>) -> AnimationView {
    AnimationView {
        name,
        duration,
        easing: EasingFunction::Ease.css(),
        delay: "0ms"@,
        iteration_count: AnimationIterationCount::Finite(1).css(),
        direction: AnimationDirection::Normal.css(),
        fill_mode: AnimationFillMode::Unfilled.css(),
        state: AnimationState::Running.css(),
    }
}

/// The `animation` shorthand for the longhands of `animation`.
pub open spec fn shorthand(animation: AnimationView) -> Seq<char> {
    animation.duration + " "@ + animation.easing + " "@ + animation.delay + " "@
        + animation.iteration_count + " "@ + animation.direction + " "@ + animation.fill_mode
        + " "@ + animation.state + " "@ + animation.name
}

/// The shorthands of `animations`, separated by `, `.
pub open spec fn shorthand_list(animations: Seq<Animation>) -> Seq<char>
    decreases animations.len(),
{
    if animations.len() == 0 {
        Seq::empty()
    } else if animations.len() == 1 {
        shorthand(animations[0]@)
    } else {
        shorthand_list(animations.drop_last()) + ", "@ + shorthand(animations.last()@)
    }
}

impl KeyFrame {
    /// Create a default `Animation` for this keyframe using the given duration.
    pub fn animation<D: CssPropertyValue<Kind = Duration>>(self, duration: D) -> (animation:
        Animation)
        ensures
            animation@ == default_animation(self.css(), duration.css()),
    {
        Animation::new(self, duration)
    }
}

impl Animation {
    /// Create new animation for the given keyframe with default values.
    pub fn new<N: CssPropertyValue<Kind = KeyFrame>, D: CssPropertyValue<Kind = Duration>>(
        name: N,
        duration: D,
    ) -> (animation: Self)
        ensures
            animation@ == default_animation(name.css(), duration.css()),
    {
        Animation {
            name: name.into_css(),
            duration: duration.into_css(),
            easing: EasingFunction::default().into_css(),
            delay: zero_duration().into_css(),
            iteration_count: AnimationIterationCount::default().into_css(),
            direction: AnimationDirection::default().into_css(),
            fill_mode: AnimationFillMode::default().into_css(),
            state: AnimationState::default().into_css(),
        }
    }

    /// Sets `animation-timing-function`.
    pub fn easing<V: CssPropertyValue<Kind = EasingFunction>>(self, value: V) -> (animation: Self)
        ensures
            animation@ == (AnimationView { easing: value.css(), ..self@ }),
    {
        Animation { easing: value.into_css(), ..self }
    }

    /// Sets `animation-delay`.
    pub fn delay<V: CssPropertyValue<Kind = Duration>>(self, value: V) -> (animation: Self)
        ensures
            animation@ == (AnimationView { delay: value.css(), ..self@ }),
    {
        Animation { delay: value.into_css(), ..self }
    }

    /// Sets `animation-iteration-count`.
    pub fn iteration_count<V: CssPropertyValue<Kind = AnimationIterationCount>>(
        self,
        value: V,
    ) -> (animation: Self)
        ensures
            animation@ == (AnimationView { iteration_count: value.css(), ..self@ }),
    {
        Animation { iteration_count: value.into_css(), ..self }
    }

    /// Sets `animation-direction`.
    pub fn direction<V: CssPropertyValue<Kind = AnimationDirection>>(self, value: V) -> (animation:
        Self)
        ensures
            animation@ == (AnimationView { direction: value.css(), ..self@ }),
    {
        Animation { direction: value.into_css(), ..self }
    }

    /// Sets `animation-fill-mode`.
    pub fn fill_mode<V: CssPropertyValue<Kind = AnimationFillMode>>(self, value: V) -> (animation:
        Self)
        ensures
            animation@ == (AnimationView { fill_mode: value.css(), ..self@ }),
    {
        Animation { fill_mode: value.into_css(), ..self }
    }

    /// Sets `animation-play-state`.
    pub fn state<V: CssPropertyValue<Kind = AnimationState>>(self, value: V) -> (animation: Self)
        ensures
            animation@ == (AnimationView { state: value.css(), ..self@ }),
    {
        Animation { state: value.into_css(), ..self }
    }
}

impl IntoCss for Animation {
    open spec fn css(&self) -> Seq<char> {
        shorthand(self@)
    }

    fn into_css(self) -> (text: String) {
        let mut text = self.duration;
        text.append(" ");
        text.append(self.easing.as_str());
        text.append(" ");
        text.append(self.delay.as_str());
        text.append(" ");
        text.append(self.iteration_count.as_str());
        text.append(" ");
        text.append(self.direction.as_str());
        text.append(" ");
        text.append(self.fill_mode.as_str());
        text.append(" ");
        text.append(self.state.as_str());
        text.append(" ");
        text.append(self.name.as_str());
        text
    }
}

impl IntoCss for Vec<Animation> {
    open spec fn css(&self) -> Seq<char> {
        shorthand_list(self@)
    }

    fn into_css(self) -> (text: String) {
        let ghost all = self@;
        let mut text = String::new();
        for animation in it: self
            invariant
                it.seq() == all,
                text@ == shorthand_list(all.take(it.index())),
        {
            let ghost done = all.take(it.index());
            let ghost next = all.take(it.index() + 1);
            assert(next.drop_last() == done);
            assert(next.last() == animation);
            if text.as_str().is_empty() {
                assert(done.len() == 0) by {
                    lemma_shorthand_not_empty(done);
                }
                text = animation.into_css();
            } else {
                assert(done.len() > 0);
                text.append(", ");
                let one = animation.into_css();
                text.append(one.as_str());
            }
        }
        assert(all.take(all.len() as int) == all);
        text
    }
}

/// The shorthand of an animation holds seven separators at least, so a
/// list of shorthands is empty only where there is no animation.
pub proof fn lemma_shorthand_not_empty(animations: Seq<Animation>)
    ensures
        animations.len() > 0 ==> shorthand_list(animations).len() >= 7,
    decreases animations.len(),
{
    reveal_strlit(" ");
    if animations.len() > 1 {
        lemma_shorthand_not_empty(animations.drop_last());
    }
}

impl CssPropertyValue for Animation {
    type Kind = Animation;
}

impl CssPropertyValue for Vec<Animation> {
    type Kind = Animation;
}

} // verus!
