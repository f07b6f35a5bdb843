//! Values of the animation properties.

use crate::css::IntoCss;
use crate::decimal::{decimal, to_decimal};
use std::time::Duration;
use vstd::prelude::*;

verus! {

/// A value that can stand where a property expects a value of the type
/// `Kind`.
pub trait CssPropertyValue: IntoCss {
    /// The type of value that the property expects.
    type Kind;
}

/// The whole milliseconds that `duration` holds.
pub uninterp spec fn duration_millis(duration: Duration) -> nat;

/// `Duration::as_millis`: the total number of whole milliseconds of the
/// duration.
#[verifier::external_body]
fn millis_of(duration: &Duration) -> (millis: u128)
    ensures
        millis == duration_millis(*duration),
{
    duration.as_millis()
}

/// `Duration::ZERO`: a duration of no time at all.
#[verifier::external_body]
fn no_time() -> (duration: Duration)
    ensures
        duration_millis(duration) == 0,
{
    Duration::ZERO
}

/// A duration of no time at all.
pub fn zero_duration() -> (duration: Duration)
    ensures
        duration.css() == "0ms"@,
{
    let duration = no_time();
    proof {
        reveal_strlit("0ms");
        reveal_strlit("ms");
        assert(duration.css() =~= "0ms"@);
    }
    duration
}

impl IntoCss for Duration {
    /// A time in milliseconds.
    open spec fn css(&self) -> Seq<char> {
        decimal(duration_millis(*self)) + "ms"@
    }

    fn into_css(self) -> (text: String) {
        let mut text = to_decimal(millis_of(&self));
        text.append("ms");
        text
    }
}

impl CssPropertyValue for Duration {
    type Kind = Duration;
}

/// How an animation progresses through its cycle.
#[derive(Debug, Clone, Copy, PartialEq, Eq, Structural)]
pub enum EasingFunction {
    /// `linear`
    Linear,
    /// `ease`
    Ease,
    /// `ease-in`
    EaseIn,
    /// `ease-out`
    EaseOut,
    /// `ease-in-out`
    EaseInOut,
    /// `step-start`
    StepStart,
    /// `step-end`
    StepEnd,
}

impl Default for EasingFunction {
    fn default() -> (value: Self)
        ensures
            value == EasingFunction::Ease,
    {
        EasingFunction::Ease
    }
}

impl IntoCss for EasingFunction {
    open spec fn css(&self) -> Seq<char> {
        match self {
            EasingFunction::Linear => "linear"@,
            EasingFunction::Ease => "ease"@,
            EasingFunction::EaseIn => "ease-in"@,
            EasingFunction::EaseOut => "ease-out"@,
            EasingFunction::EaseInOut => "ease-in-out"@,
            EasingFunction::StepStart => "step-start"@,
            EasingFunction::StepEnd => "step-end"@,
        }
    }

    fn into_css(self) -> (text: String) {
        match self {
            EasingFunction::Linear => "linear".to_owned(),
            EasingFunction::Ease => "ease".to_owned(),
            EasingFunction::EaseIn => "ease-in".to_owned(),
            EasingFunction::EaseOut => "ease-out".to_owned(),
            EasingFunction::EaseInOut => "ease-in-out".to_owned(),
            EasingFunction::StepStart => "step-start".to_owned(),
            EasingFunction::StepEnd => "step-end".to_owned(),
        }
    }
}

impl CssPropertyValue for EasingFunction {
    type Kind = EasingFunction;
}

/// How often an animation cycle is played.
#[derive(Debug, Clone, Copy, PartialEq, Eq, Structural)]
pub enum AnimationIterationCount {
    /// That many times.
    Finite(u32),
    /// `infinite`
    Infinite,
}

impl Default for AnimationIterationCount {
    fn default() -> (value: Self)
        ensures
            value == AnimationIterationCount::Finite(1),
    {
        AnimationIterationCount::Finite(1)
    }
}

impl IntoCss for AnimationIterationCount {
    open spec fn css(&self) -> Seq<char> {
        match self {
            AnimationIterationCount::Finite(times) => decimal(*times as nat),
            AnimationIterationCount::Infinite => "infinite"@,
        }
    }

    fn into_css(self) -> (text: String) {
        match self {
            AnimationIterationCount::Finite(times) => to_decimal(times as u128),
            AnimationIterationCount::Infinite => "infinite".to_owned(),
        }
    }
}

impl CssPropertyValue for AnimationIterationCount {
    type Kind = AnimationIterationCount;
}

/// In which direction an animation is played.
#[derive(Debug, Clone, Copy, PartialEq, Eq, Structural)]
pub enum AnimationDirection {
    /// `normal`
    Normal,
    /// `reverse`
    Reverse,
    /// `alternate`
    Alternate,
    /// `alternate-reverse`
    AlternateReverse,
}

impl Default for AnimationDirection {
    fn default() -> (value: Self)
        ensures
            value == AnimationDirection::Normal,
    {
        AnimationDirection::Normal
    }
}

impl IntoCss for AnimationDirection {
    open spec fn css(&self) -> Seq<char> {
        match self {
            AnimationDirection::Normal => "normal"@,
            AnimationDirection::Reverse => "reverse"@,
            AnimationDirection::Alternate => "alternate"@,
            AnimationDirection::AlternateReverse => "alternate-reverse"@,
        }
    }

    fn into_css(self) -> (text: String) {
        match self {
            AnimationDirection::Normal => "normal".to_owned(),
            AnimationDirection::Reverse => "reverse".to_owned(),
            AnimationDirection::Alternate => "alternate".to_owned(),
            AnimationDirection::AlternateReverse => "alternate-reverse".to_owned(),
        }
    }
}

impl CssPropertyValue for AnimationDirection {
    type Kind = AnimationDirection;
}

/// Which styles an animation applies outside its run.
#[derive(Debug, Clone, Copy, PartialEq, Eq, Structural)]
pub enum AnimationFillMode {
    /// `none`
    Unfilled,
    /// `forwards`
    Forwards,
    /// `backwards`
    Backwards,
    /// `both`
    Both,
}

impl Default for AnimationFillMode {
    fn default() -> (value: Self)
        ensures
            value == AnimationFillMode::Unfilled,
    {
        AnimationFillMode::Unfilled
    }
}

impl IntoCss for AnimationFillMode {
    open spec fn css(&self) -> Seq<char> {
        match self {
            AnimationFillMode::Unfilled => "none"@,
            AnimationFillMode::Forwards => "forwards"@,
            AnimationFillMode::Backwards => "backwards"@,
            AnimationFillMode::Both => "both"@,
        }
    }

    fn into_css(self) -> (text: String) {
        match self {
            AnimationFillMode::Unfilled => "none".to_owned(),
            AnimationFillMode::Forwards => "forwards".to_owned(),
            AnimationFillMode::Backwards => "backwards".to_owned(),
            AnimationFillMode::Both => "both".to_owned(),
        }
    }
}

impl CssPropertyValue for AnimationFillMode {
    type Kind = AnimationFillMode;
}

/// Whether an animation runs.
#[derive(Debug, Clone, Copy, PartialEq, Eq, Structural)]
pub enum AnimationState {
    /// `running`
    Running,
    /// `paused`
    Paused,
}

impl Default for AnimationState {
    fn default() -> (value: Self)
        ensures
            value == AnimationState::Running,
    {
        AnimationState::Running
    }
}

impl IntoCss for AnimationState {
    open spec fn css(&self) -> Seq<char> {
        match self {
            AnimationState::Running => "running"@,
            AnimationState::Paused => "paused"@,
        }
    }

    fn into_css(self) -> (text: String) {
        match self {
            AnimationState::Running => "running".to_owned(),
            AnimationState::Paused => "paused".to_owned(),
        }
    }
}

impl CssPropertyValue for AnimationState {
    type Kind = AnimationState;
}

} // verus!
