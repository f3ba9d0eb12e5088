//! What a mouse press does while a floating surface (a modal dialog, a
//! popup, a context menu) is shown: whether it dismisses the surface, and
//! whether the widgets behind it still see the press.

use vstd::prelude::*;

verus! {

/// Whether the widgets behind the floating surface may take input.
#[derive(Debug, Clone, Copy, PartialEq, Eq, Structural)]
pub enum BackgroundInputPolicy {
    /// The background sees no presses while the surface is shown.
    Blocked,
}

/// Which presses outside the surface dismiss it.
#[derive(Debug, Clone, Copy, PartialEq, Eq, Structural)]
pub enum OutsideDismissalPolicy {
    /// A primary press outside dismisses it; the press itself is swallowed.
    CapturedPrimaryPress,
    /// Any press outside dismisses it; a secondary press goes on to the
    /// background, so that it can open the next context menu in its place.
    ContextMenuReplacement,
}

/// A surface that a press outside it can dismiss, with the message that
/// dismisses it.
#[derive(Debug, Clone, PartialEq, Eq)]
pub struct OutsideClickDismissal<M> {
    pub message: M,
    pub policy: OutsideDismissalPolicy,
}

/// Where the pointer is.
#[derive(Debug, Clone, Copy, PartialEq, Eq, Structural)]
pub enum FloatingPointerTarget {
    /// Over the floating surface.
    FloatingBounds,
    /// Anywhere else in the window.
    Background,
}

/// The press.
#[derive(Debug, Clone, Copy, PartialEq, Eq, Structural)]
pub enum FloatingInputEvent {
    PrimaryPress,
    SecondaryPress,
}

/// What the background's widgets do with the press.
#[derive(Debug, Clone, Copy, PartialEq, Eq, Structural)]
pub enum BackgroundUpdateDecision {
    /// The surface handles it; the background never sees it.
    Stop,
    /// Swallowed outside the surface.
    Capture,
    /// Passed on to the background.
    Update,
}

#[derive(Debug, Clone, PartialEq, Eq)]
pub struct FloatingInputDecision<M> {
    pub dismiss_message: Option<M>,
    pub background_update: BackgroundUpdateDecision,
}

/// A press outside a surface with `policy` dismisses it.
pub open spec fn dismisses(policy: OutsideDismissalPolicy, event: FloatingInputEvent) -> bool {
    match policy {
        OutsideDismissalPolicy::CapturedPrimaryPress => event == FloatingInputEvent::PrimaryPress,
        OutsideDismissalPolicy::ContextMenuReplacement => true,
    }
}

/// A press outside a surface with `policy` goes on to the background.
pub open spec fn reaches_background(policy: OutsideDismissalPolicy, event: FloatingInputEvent) -> bool {
    policy == OutsideDismissalPolicy::ContextMenuReplacement && event == FloatingInputEvent::SecondaryPress
}

/// `decide_floating_input`: a press on the surface is the surface's alone;
/// a press outside it is swallowed, except a secondary press outside a
/// context menu, which reaches the background; it dismisses the surface
/// when the surface's policy says so. (The dismissal is handed over rather
/// than borrowed, so that its message can be given back as it is.)
pub fn decide_floating_input<M>(
    background: BackgroundInputPolicy,
    dismissal: Option<OutsideClickDismissal<M>>,
    target: FloatingPointerTarget,
    event: FloatingInputEvent,
) -> (decision: FloatingInputDecision<M>)
    ensures
        target == FloatingPointerTarget::FloatingBounds ==> decision.dismiss_message is None
            && decision.background_update == BackgroundUpdateDecision::Stop,
        target == FloatingPointerTarget::Background ==> match dismissal {
            None => decision.dismiss_message is None && decision.background_update
                == BackgroundUpdateDecision::Capture,
            Some(d) => {
                &&& decision.dismiss_message == if dismisses(d.policy, event) {
                    Some(d.message)
                } else {
                    None
                }
                &&& decision.background_update == if reaches_background(d.policy, event) {
                    BackgroundUpdateDecision::Update
                } else {
                    BackgroundUpdateDecision::Capture
                }
            },
        },
{
    match background {
        BackgroundInputPolicy::Blocked => {},
    }
    match target {
        FloatingPointerTarget::FloatingBounds => FloatingInputDecision {
            dismiss_message: None,
            background_update: BackgroundUpdateDecision::Stop,
        },
        FloatingPointerTarget::Background => match dismissal {
            None => FloatingInputDecision {
                dismiss_message: None,
                background_update: BackgroundUpdateDecision::Capture,
            },
            Some(d) => {
                let dismiss = match d.policy {
                    OutsideDismissalPolicy::CapturedPrimaryPress => event == FloatingInputEvent::PrimaryPress,
                    OutsideDismissalPolicy::ContextMenuReplacement => true,
                };
                let update = d.policy == OutsideDismissalPolicy::ContextMenuReplacement && event
                    == FloatingInputEvent::SecondaryPress;
                FloatingInputDecision {
                    dismiss_message: if dismiss {
                        Some(d.message)
                    } else {
                        None
                    },
                    background_update: if update {
                        BackgroundUpdateDecision::Update
                    } else {
                        BackgroundUpdateDecision::Capture
                    },
                }
            },
        },
    }
}

/// While a surface is shown, no press reaches the background unless it is
/// a secondary press outside a context menu, and that one also dismisses
/// the menu: a context menu is replaced, never left open under a new one.
pub proof fn lemma_background_sees_only_menu_replacing_presses(
    policy: OutsideDismissalPolicy,
    event: FloatingInputEvent,
)
    ensures
        reaches_background(policy, event) ==> dismisses(policy, event),
        reaches_background(policy, event) ==> policy == OutsideDismissalPolicy::ContextMenuReplacement,
{
}

} // verus!
