use window_decor::corner::corner_code;
use window_decor::corner::CornerPreference;
use window_decor::corner::CORNER_PREFERENCE_SIZE_BYTES;
use window_decor::flow::corner_flow_start;
use window_decor::flow::corner_step;
use window_decor::flow::opacity_flow_start;
use window_decor::flow::opacity_step;
use window_decor::flow::CornerEffect;
use window_decor::flow::CornerEvent;
use window_decor::flow::CornerState;
use window_decor::flow::OpacityEffect;
use window_decor::flow::OpacityEvent;
use window_decor::flow::OpacityState;
use window_decor::opacity::WS_EX_LAYERED_BIT;
use window_decor::outcome::conclude;
use window_decor::outcome::DecorError;

#[test]
fn unsupported_platform_reports_silent_success() {
    let (state, effect) = opacity_step(
        opacity_flow_start(),
        OpacityEvent::PlatformChecked { layering_supported: false },
        127_500,
    );
    assert_eq!(effect, OpacityEffect::Done);
    assert_eq!(state, OpacityState::Finished { outcome: Ok(()) });
    match state {
        OpacityState::Finished { outcome } => assert_eq!(conclude(outcome), Ok(())),
        _ => unreachable!(),
    }
}

#[test]
fn unresolved_handle_fails_opacity_with_the_resolver_message() {
    let (state, _) = opacity_step(
        opacity_flow_start(),
        OpacityEvent::PlatformChecked { layering_supported: true },
        127_500,
    );
    let (state, effect) = opacity_step(
        state,
        OpacityEvent::HandleResolved { failure: Some("no native handle".to_string()) },
        127_500,
    );
    // No further native call is asked for.
    assert_eq!(effect, OpacityEffect::Done);
    match state {
        OpacityState::Finished { outcome } => {
            assert_eq!(conclude(outcome), Err("no native handle".to_string()));
        },
        other => panic!("flow did not finish: {:?}", other),
    }
}

#[test]
fn opacity_success_path_layers_then_blends() {
    let (state, effect) = opacity_step(
        opacity_flow_start(),
        OpacityEvent::PlatformChecked { layering_supported: true },
        127_500,
    );
    assert_eq!(effect, OpacityEffect::ResolveHandle);
    let (state, effect) = opacity_step(state, OpacityEvent::HandleResolved { failure: None }, 127_500);
    assert_eq!(effect, OpacityEffect::ReadStyle);
    let (state, effect) = opacity_step(state, OpacityEvent::StyleRead { ex_style: 0x0001_0000 }, 127_500);
    assert_eq!(
        effect,
        OpacityEffect::ApplyLayeredAlpha { ex_style: 0x0001_0000 | WS_EX_LAYERED_BIT, alpha: 127 },
    );
    let (state, effect) = opacity_step(state, OpacityEvent::CompositorReplied { failure: None }, 127_500);
    assert_eq!(effect, OpacityEffect::Done);
    assert_eq!(state, OpacityState::Finished { outcome: Ok(()) });
}

#[test]
fn a_second_opacity_call_keeps_the_layered_bit() {
    // First call on a window whose style never had the layered bit.
    let (state, _) = opacity_step(
        opacity_flow_start(),
        OpacityEvent::PlatformChecked { layering_supported: true },
        76_500,
    );
    let (state, _) = opacity_step(state, OpacityEvent::HandleResolved { failure: None }, 76_500);
    let (_, effect) = opacity_step(state, OpacityEvent::StyleRead { ex_style: 0 }, 76_500);
    let first_style = match effect {
        OpacityEffect::ApplyLayeredAlpha { ex_style, alpha } => {
            assert_eq!(alpha, 76); // 0.3 scales to 76.5 and truncates
            assert_eq!(ex_style & WS_EX_LAYERED_BIT, WS_EX_LAYERED_BIT);
            ex_style
        },
        other => panic!("unexpected effect: {:?}", other),
    };
    // Second call with another opacity reads back what the first wrote.
    let (state, _) = opacity_step(
        opacity_flow_start(),
        OpacityEvent::PlatformChecked { layering_supported: true },
        229_500,
    );
    let (state, _) = opacity_step(state, OpacityEvent::HandleResolved { failure: None }, 229_500);
    let (_, effect) = opacity_step(state, OpacityEvent::StyleRead { ex_style: first_style }, 229_500);
    match effect {
        OpacityEffect::ApplyLayeredAlpha { ex_style, alpha } => {
            assert_eq!(alpha, 229); // 0.9 scales to 229.5 and truncates
            assert_eq!(ex_style, first_style); // the bit stays set
        },
        other => panic!("unexpected effect: {:?}", other),
    }
}

#[test]
fn rejected_blending_call_reports_the_prefixed_diagnostic() {
    let (state, _) = opacity_step(
        opacity_flow_start(),
        OpacityEvent::PlatformChecked { layering_supported: true },
        127_500,
    );
    let (state, _) = opacity_step(state, OpacityEvent::HandleResolved { failure: None }, 127_500);
    let (state, _) = opacity_step(state, OpacityEvent::StyleRead { ex_style: 0 }, 127_500);
    let (state, _) = opacity_step(
        state,
        OpacityEvent::CompositorReplied { failure: Some("access denied".to_string()) },
        127_500,
    );
    match state {
        OpacityState::Finished { outcome } => {
            assert_eq!(
                conclude(outcome),
                Err("Failed to set window opacity: access denied".to_string()),
            );
        },
        other => panic!("flow did not finish: {:?}", other),
    }
}

#[test]
fn corner_request_is_rounded_with_a_four_byte_code() {
    let (state, effect) = corner_step(
        corner_flow_start(),
        CornerEvent::HandleResolved { failure: None },
    );
    assert_eq!(state, CornerState::AwaitingCompositor);
    assert_eq!(
        effect,
        CornerEffect::ApplyCornerPreference {
            preference: CornerPreference::Rounded,
            size_bytes: CORNER_PREFERENCE_SIZE_BYTES,
        },
    );
    match effect {
        CornerEffect::ApplyCornerPreference { preference, size_bytes } => {
            assert_ne!(preference, CornerPreference::SystemDefault);
            assert_ne!(preference, CornerPreference::Square);
            assert_ne!(preference, CornerPreference::SmallRounded);
            assert_eq!(corner_code(preference), 2);
            assert_eq!(size_bytes, 4);
        },
        other => panic!("unexpected effect: {:?}", other),
    }
}

#[test]
fn corner_codes_cover_the_platform_range() {
    assert_eq!(corner_code(CornerPreference::SystemDefault), 0);
    assert_eq!(corner_code(CornerPreference::Square), 1);
    assert_eq!(corner_code(CornerPreference::Rounded), 2);
    assert_eq!(corner_code(CornerPreference::SmallRounded), 3);
}

#[test]
fn unresolved_handle_fails_corner_with_the_resolver_message() {
    let (state, effect) = corner_step(
        corner_flow_start(),
        CornerEvent::HandleResolved { failure: Some("window is gone".to_string()) },
    );
    assert_eq!(effect, CornerEffect::Done);
    match state {
        CornerState::Finished { outcome } => {
            assert_eq!(conclude(outcome), Err("window is gone".to_string()));
        },
        other => panic!("flow did not finish: {:?}", other),
    }
}

#[test]
fn rejected_attribute_call_reports_the_prefixed_diagnostic() {
    let (state, _) = corner_step(corner_flow_start(), CornerEvent::HandleResolved { failure: None });
    let (state, effect) = corner_step(
        state,
        CornerEvent::CompositorReplied { failure: Some("feature unavailable".to_string()) },
    );
    assert_eq!(effect, CornerEffect::Done);
    match state {
        CornerState::Finished { outcome } => {
            assert_eq!(
                conclude(outcome),
                Err("Failed to set window corner:  feature unavailable".to_string()),
            );
        },
        other => panic!("flow did not finish: {:?}", other),
    }
}

#[test]
fn corner_success_path_finishes_cleanly() {
    let (state, _) = corner_step(corner_flow_start(), CornerEvent::HandleResolved { failure: None });
    let (state, effect) = corner_step(state, CornerEvent::CompositorReplied { failure: None });
    assert_eq!(effect, CornerEffect::Done);
    assert_eq!(state, CornerState::Finished { outcome: Ok(()) });
}

#[test]
fn each_failure_renders_its_own_message() {
    let resolution = DecorError::HandleResolution { detail: "boom".to_string() };
    assert_eq!(resolution.message(), "boom".to_string());
    let blending = DecorError::Compositor { detail: "boom".to_string() };
    assert_eq!(blending.message(), "Failed to set window opacity: boom".to_string());
    let attribute = DecorError::CompositorAttribute { detail: "boom".to_string() };
    assert_eq!(attribute.message(), "Failed to set window corner:  boom".to_string());
}
