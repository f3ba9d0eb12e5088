use app_ui::floating_input::{
    decide_floating_input, BackgroundInputPolicy, BackgroundUpdateDecision, FloatingInputDecision,
    FloatingInputEvent, FloatingPointerTarget, OutsideClickDismissal, OutsideDismissalPolicy,
};

#[derive(Debug, Clone, PartialEq, Eq)]
enum TestMessage {
    Dismiss,
}

fn dismissal(policy: OutsideDismissalPolicy) -> OutsideClickDismissal<TestMessage> {
    OutsideClickDismissal {
        message: TestMessage::Dismiss,
        policy,
    }
}

#[test]
fn modal_inside_floating_bounds_stops_background_without_dismissal() {
    let decision = decide_floating_input::<TestMessage>(
        BackgroundInputPolicy::Blocked,
        None,
        FloatingPointerTarget::FloatingBounds,
        FloatingInputEvent::PrimaryPress,
    );

    assert_eq!(
        decision,
        FloatingInputDecision {
            dismiss_message: None,
            background_update: BackgroundUpdateDecision::Stop
        }
    );
}

#[test]
fn context_menu_inside_right_click_stops_background_without_dismissal() {
    let dismissal = dismissal(OutsideDismissalPolicy::ContextMenuReplacement);

    let decision = decide_floating_input(
        BackgroundInputPolicy::Blocked,
        Some(dismissal),
        FloatingPointerTarget::FloatingBounds,
        FloatingInputEvent::SecondaryPress,
    );

    assert_eq!(
        decision,
        FloatingInputDecision {
            dismiss_message: None,
            background_update: BackgroundUpdateDecision::Stop
        }
    );
}

#[test]
fn modal_outside_left_click_captures_without_dismissal() {
    let decision = decide_floating_input::<TestMessage>(
        BackgroundInputPolicy::Blocked,
        None,
        FloatingPointerTarget::Background,
        FloatingInputEvent::PrimaryPress,
    );

    assert_eq!(
        decision,
        FloatingInputDecision {
            dismiss_message: None,
            background_update: BackgroundUpdateDecision::Capture
        }
    );
}

#[test]
fn blocking_dismissible_outside_left_click_dismisses_and_captures() {
    let dismissal = dismissal(OutsideDismissalPolicy::CapturedPrimaryPress);

    let decision = decide_floating_input(
        BackgroundInputPolicy::Blocked,
        Some(dismissal),
        FloatingPointerTarget::Background,
        FloatingInputEvent::PrimaryPress,
    );

    assert_eq!(
        decision,
        FloatingInputDecision {
            dismiss_message: Some(TestMessage::Dismiss),
            background_update: BackgroundUpdateDecision::Capture
        }
    );
}

#[test]
fn blocking_dismissible_outside_right_click_stays_open_and_captures() {
    let dismissal = dismissal(OutsideDismissalPolicy::CapturedPrimaryPress);

    let decision = decide_floating_input(
        BackgroundInputPolicy::Blocked,
        Some(dismissal),
        FloatingPointerTarget::Background,
        FloatingInputEvent::SecondaryPress,
    );

    assert_eq!(
        decision,
        FloatingInputDecision {
            dismiss_message: None,
            background_update: BackgroundUpdateDecision::Capture
        }
    );
}

#[test]
fn context_menu_outside_left_click_dismisses_and_captures() {
    let dismissal = dismissal(OutsideDismissalPolicy::ContextMenuReplacement);

    let decision = decide_floating_input(
        BackgroundInputPolicy::Blocked,
        Some(dismissal),
        FloatingPointerTarget::Background,
        FloatingInputEvent::PrimaryPress,
    );

    assert_eq!(
        decision,
        FloatingInputDecision {
            dismiss_message: Some(TestMessage::Dismiss),
            background_update: BackgroundUpdateDecision::Capture
        }
    );
}

#[test]
fn context_menu_outside_right_click_dismisses_and_updates_background() {
    let dismissal = dismissal(OutsideDismissalPolicy::ContextMenuReplacement);

    let decision = decide_floating_input(
        BackgroundInputPolicy::Blocked,
        Some(dismissal),
        FloatingPointerTarget::Background,
        FloatingInputEvent::SecondaryPress,
    );

    assert_eq!(
        decision,
        FloatingInputDecision {
            dismiss_message: Some(TestMessage::Dismiss),
            background_update: BackgroundUpdateDecision::Update
        }
    );
}

#[test]
fn a_press_on_a_dismissible_surface_never_dismisses_it() {
    for policy in [OutsideDismissalPolicy::CapturedPrimaryPress, OutsideDismissalPolicy::ContextMenuReplacement] {
        for event in [FloatingInputEvent::PrimaryPress, FloatingInputEvent::SecondaryPress] {
            let decision = decide_floating_input(
                BackgroundInputPolicy::Blocked,
                Some(dismissal(policy)),
                FloatingPointerTarget::FloatingBounds,
                event,
            );
            assert_eq!(decision.dismiss_message, None);
            assert_eq!(decision.background_update, BackgroundUpdateDecision::Stop);
        }
    }
}
