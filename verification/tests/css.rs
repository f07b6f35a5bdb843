use natrix_dev::css::animations::{
    Animation, AnimationDirection, AnimationFillMode, AnimationIterationCount, AnimationState,
    EasingFunction,
};
use natrix_dev::css::keyframes::KeyFrame;
use natrix_dev::css::values::zero_duration;
use natrix_dev::css::IntoCss;
use std::time::Duration;

#[test]
fn new_animation_has_default_longhands() {
    let animation = Animation::new(KeyFrame("slide"), Duration::from_millis(300));
    assert_eq!(animation.into_css(), "300ms ease 0ms 1 normal none running slide");
}

#[test]
fn keyframe_animation_is_new() {
    let animation = KeyFrame("fade").animation(Duration::from_secs(2));
    assert_eq!(animation.into_css(), "2000ms ease 0ms 1 normal none running fade");
}

#[test]
fn builders_set_one_longhand_each() {
    let animation = Animation::new(KeyFrame("slide"), Duration::from_millis(1500))
        .easing(EasingFunction::EaseInOut)
        .delay(Duration::from_millis(250))
        .iteration_count(AnimationIterationCount::Infinite)
        .direction(AnimationDirection::AlternateReverse)
        .fill_mode(AnimationFillMode::Both)
        .state(AnimationState::Paused);
    assert_eq!(
        animation.into_css(),
        "1500ms ease-in-out 250ms infinite alternate-reverse both paused slide"
    );
}

#[test]
fn animation_list_is_comma_separated() {
    let animations = vec![
        Animation::new(KeyFrame("a"), Duration::from_millis(1)),
        Animation::new(KeyFrame("b"), Duration::from_millis(2))
            .iteration_count(AnimationIterationCount::Finite(3)),
        Animation::new(KeyFrame("c"), Duration::from_millis(4)),
    ];
    assert_eq!(
        animations.into_css(),
        "1ms ease 0ms 1 normal none running a, 2ms ease 0ms 3 normal none running b, \
         4ms ease 0ms 1 normal none running c"
    );
    assert_eq!(Vec::<Animation>::new().into_css(), "");
    assert_eq!(
        vec![Animation::new(KeyFrame("only"), Duration::ZERO)].into_css(),
        "0ms ease 0ms 1 normal none running only"
    );
}

#[test]
fn duration_is_written_in_milliseconds() {
    assert_eq!(Duration::from_millis(1500).into_css(), "1500ms");
    assert_eq!(Duration::from_secs(1).into_css(), "1000ms");
    assert_eq!(Duration::from_micros(2999).into_css(), "2ms");
    assert_eq!(Duration::ZERO.into_css(), "0ms");
    assert_eq!(zero_duration(), Duration::ZERO);
    assert_eq!(zero_duration().into_css(), "0ms");
}

#[test]
fn keywords() {
    assert_eq!(KeyFrame("spin").into_css(), "spin");
    assert_eq!(EasingFunction::Linear.into_css(), "linear");
    assert_eq!(EasingFunction::Ease.into_css(), "ease");
    assert_eq!(EasingFunction::EaseIn.into_css(), "ease-in");
    assert_eq!(EasingFunction::EaseOut.into_css(), "ease-out");
    assert_eq!(EasingFunction::EaseInOut.into_css(), "ease-in-out");
    assert_eq!(EasingFunction::StepStart.into_css(), "step-start");
    assert_eq!(EasingFunction::StepEnd.into_css(), "step-end");
    assert_eq!(AnimationIterationCount::Finite(12).into_css(), "12");
    assert_eq!(AnimationIterationCount::Infinite.into_css(), "infinite");
    assert_eq!(AnimationDirection::Normal.into_css(), "normal");
    assert_eq!(AnimationDirection::Reverse.into_css(), "reverse");
    assert_eq!(AnimationDirection::Alternate.into_css(), "alternate");
    assert_eq!(AnimationDirection::AlternateReverse.into_css(), "alternate-reverse");
    assert_eq!(AnimationFillMode::Unfilled.into_css(), "none");
    assert_eq!(AnimationFillMode::Forwards.into_css(), "forwards");
    assert_eq!(AnimationFillMode::Backwards.into_css(), "backwards");
    assert_eq!(AnimationFillMode::Both.into_css(), "both");
    assert_eq!(AnimationState::Running.into_css(), "running");
    assert_eq!(AnimationState::Paused.into_css(), "paused");
}

#[test]
fn defaults_are_the_initial_values() {
    assert_eq!(EasingFunction::default(), EasingFunction::Ease);
    assert_eq!(AnimationIterationCount::default(), AnimationIterationCount::Finite(1));
    assert_eq!(AnimationDirection::default(), AnimationDirection::Normal);
    assert_eq!(AnimationFillMode::default(), AnimationFillMode::Unfilled);
    assert_eq!(AnimationState::default(), AnimationState::Running);
}
