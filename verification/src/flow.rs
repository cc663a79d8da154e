//! Step-by-step decisions of the two decoration operations.
//!
//! A driver outside this crate owns the window object and makes the native
//! calls; this crate owns every decision between them. Each operation is a
//! small machine: the driver starts it, performs the native call the
//! returned effect asks for, and feeds the call's reply back as the next
//! event, until the machine finishes with the outcome to report. A pair of
//! state and event that cannot arise in a run leaves the state as it is and
//! asks for nothing.

use vstd::prelude::*;

use crate::corner::CornerPreference;
use crate::corner::CORNER_PREFERENCE_SIZE_BYTES;
use crate::opacity::alpha_of_millis;
use crate::opacity::layered_style;
use crate::opacity::opacity_alpha;
use crate::opacity::with_layered;
use crate::opacity::WS_EX_LAYERED_BIT;
use crate::outcome::DecorError;

verus! {

/// Where the opacity operation stands.
#[derive(Debug, PartialEq, Eq)]
pub enum OpacityState {
    /// Waiting to learn whether the platform supports layered windows.
    CheckingPlatform,
    /// Waiting for the native window handle to be resolved.
    ResolvingHandle,
    /// Waiting for the window's extended style word, with the alpha byte
    /// the request quantised to.
    ReadingStyle { alpha: u8 },
    /// Waiting for the compositor's reply to the blending call.
    AwaitingCompositor,
    /// The operation is over; `outcome` is what the caller is told.
    Finished { outcome: Result<(), DecorError> },
}

/// What the driver reports back to the opacity operation.
#[derive(Debug, PartialEq, Eq)]
pub enum OpacityEvent {
    /// Whether the platform supports layered windows at all.
    PlatformChecked { layering_supported: bool },
    /// The handle resolution came back; `failure` carries the resolver's
    /// message when no handle could be had.
    HandleResolved { failure: Option<String> },
    /// The window's current extended style word was read.
    StyleRead { ex_style: u32 },
    /// The blending call came back; `failure` carries the platform's
    /// diagnostic when it was rejected.
    CompositorReplied { failure: Option<String> },
}

/// The native call the driver must make next for the opacity operation.
#[derive(Debug, PartialEq, Eq)]
pub enum OpacityEffect {
    /// Resolve the native window handle.
    ResolveHandle,
    /// Read the window's extended style word.
    ReadStyle,
    /// Write `ex_style` back as the extended style word, then hand `alpha`
    /// to the compositor's blending call.
    ApplyLayeredAlpha { ex_style: u32, alpha: u8 },
    /// Nothing: the operation is over.
    Done,
}

/// The transition of the opacity operation: from where it stands and what
/// the driver reported, to where it stands next and what the driver must
/// do, for a request of `alpha_millis` thousandths of an alpha step.
pub open spec fn opacity_next(
    state: OpacityState,
    event: OpacityEvent,
    alpha_millis: int,
) -> (OpacityState, OpacityEffect) {
    match (state, event) {
        (
            OpacityState::CheckingPlatform,
            OpacityEvent::PlatformChecked { layering_supported },
        ) => {
            if layering_supported {
                (OpacityState::ResolvingHandle, OpacityEffect::ResolveHandle)
            } else {
                (OpacityState::Finished { outcome: Ok(()) }, OpacityEffect::Done)
            }
        },
        (OpacityState::ResolvingHandle, OpacityEvent::HandleResolved { failure }) => {
            match failure {
                Some(detail) => (
                    OpacityState::Finished {
                        outcome: Err(DecorError::HandleResolution { detail }),
                    },
                    OpacityEffect::Done,
                ),
                None => (
                    OpacityState::ReadingStyle {
                        alpha: alpha_of_millis(alpha_millis) as u8,
                    },
                    OpacityEffect::ReadStyle,
                ),
            }
        },
        (OpacityState::ReadingStyle { alpha }, OpacityEvent::StyleRead { ex_style }) => (
            OpacityState::AwaitingCompositor,
            OpacityEffect::ApplyLayeredAlpha { ex_style: with_layered(ex_style), alpha },
        ),
        (OpacityState::AwaitingCompositor, OpacityEvent::CompositorReplied { failure }) => {
            match failure {
                Some(detail) => (
                    OpacityState::Finished { outcome: Err(DecorError::Compositor { detail }) },
                    OpacityEffect::Done,
                ),
                None => (OpacityState::Finished { outcome: Ok(()) }, OpacityEffect::Done),
            }
        },
        (leftover, _) => (leftover, OpacityEffect::Done),
    }
}

/// The opacity operation before anything is known.
pub fn opacity_flow_start() -> (state: OpacityState)
    ensures
        state == OpacityState::CheckingPlatform,
{
    OpacityState::CheckingPlatform
}

/// Advances the opacity operation by one reported event.
pub fn opacity_step(state: OpacityState, event: OpacityEvent, alpha_millis: i64) -> (step: (
    OpacityState,
    OpacityEffect,
))
    ensures
        step == opacity_next(state, event, alpha_millis as int),
{
    match (state, event) {
        (
            OpacityState::CheckingPlatform,
            OpacityEvent::PlatformChecked { layering_supported },
        ) => {
            if layering_supported {
                (OpacityState::ResolvingHandle, OpacityEffect::ResolveHandle)
            } else {
                (OpacityState::Finished { outcome: Ok(()) }, OpacityEffect::Done)
            }
        },
        (
            OpacityState::ResolvingHandle,
            OpacityEvent::HandleResolved { failure: Some(detail) },
        ) => (
            OpacityState::Finished { outcome: Err(DecorError::HandleResolution { detail }) },
            OpacityEffect::Done,
        ),
        (OpacityState::ResolvingHandle, OpacityEvent::HandleResolved { failure: None }) => (
            OpacityState::ReadingStyle { alpha: opacity_alpha(alpha_millis) },
            OpacityEffect::ReadStyle,
        ),
        (OpacityState::ReadingStyle { alpha }, OpacityEvent::StyleRead { ex_style }) => (
            OpacityState::AwaitingCompositor,
            OpacityEffect::ApplyLayeredAlpha { ex_style: layered_style(ex_style), alpha },
        ),
        (
            OpacityState::AwaitingCompositor,
            OpacityEvent::CompositorReplied { failure: Some(detail) },
        ) => (
            OpacityState::Finished { outcome: Err(DecorError::Compositor { detail }) },
            OpacityEffect::Done,
        ),
        (
            OpacityState::AwaitingCompositor,
            OpacityEvent::CompositorReplied { failure: None },
        ) => (OpacityState::Finished { outcome: Ok(()) }, OpacityEffect::Done),
        (leftover, _) => (leftover, OpacityEffect::Done),
    }
}

/// Where the corner operation stands.
#[derive(Debug, PartialEq, Eq)]
pub enum CornerState {
    /// Waiting for the native window handle to be resolved.
    ResolvingHandle,
    /// Waiting for the compositor's reply to the attribute call.
    AwaitingCompositor,
    /// The operation is over; `outcome` is what the caller is told.
    Finished { outcome: Result<(), DecorError> },
}

/// What the driver reports back to the corner operation.
#[derive(Debug, PartialEq, Eq)]
pub enum CornerEvent {
    /// The handle resolution came back; `failure` carries the resolver's
    /// message when no handle could be had.
    HandleResolved { failure: Option<String> },
    /// The attribute call came back; `failure` carries the platform's
    /// diagnostic when it was rejected.
    CompositorReplied { failure: Option<String> },
}

/// The native call the driver must make next for the corner operation.
#[derive(Debug, PartialEq, Eq)]
pub enum CornerEffect {
    /// Hand `preference`, as a code of `size_bytes` bytes, to the
    /// compositor's attribute call.
    ApplyCornerPreference { preference: CornerPreference, size_bytes: u32 },
    /// Nothing: the operation is over.
    Done,
}

/// The transition of the corner operation.
pub open spec fn corner_next(state: CornerState, event: CornerEvent) -> (
    CornerState,
    CornerEffect,
) {
    match (state, event) {
        (CornerState::ResolvingHandle, CornerEvent::HandleResolved { failure }) => {
            match failure {
                Some(detail) => (
                    CornerState::Finished {
                        outcome: Err(DecorError::HandleResolution { detail }),
                    },
                    CornerEffect::Done,
                ),
                None => (
                    CornerState::AwaitingCompositor,
                    CornerEffect::ApplyCornerPreference {
                        preference: CornerPreference::Rounded,
                        size_bytes: CORNER_PREFERENCE_SIZE_BYTES,
                    },
                ),
            }
        },
        (CornerState::AwaitingCompositor, CornerEvent::CompositorReplied { failure }) => {
            match failure {
                Some(detail) => (
                    CornerState::Finished {
                        outcome: Err(DecorError::CompositorAttribute { detail }),
                    },
                    CornerEffect::Done,
                ),
                None => (CornerState::Finished { outcome: Ok(()) }, CornerEffect::Done),
            }
        },
        (leftover, _) => (leftover, CornerEffect::Done),
    }
}

/// The corner operation before anything is known.
pub fn corner_flow_start() -> (state: CornerState)
    ensures
        state == CornerState::ResolvingHandle,
{
    CornerState::ResolvingHandle
}

/// Advances the corner operation by one reported event.
pub fn corner_step(state: CornerState, event: CornerEvent) -> (step: (CornerState, CornerEffect))
    ensures
        step == corner_next(state, event),
{
    match (state, event) {
        (CornerState::ResolvingHandle, CornerEvent::HandleResolved { failure: Some(detail) }) => (
            CornerState::Finished { outcome: Err(DecorError::HandleResolution { detail }) },
            CornerEffect::Done,
        ),
        (CornerState::ResolvingHandle, CornerEvent::HandleResolved { failure: None }) => (
            CornerState::AwaitingCompositor,
            CornerEffect::ApplyCornerPreference {
                preference: CornerPreference::Rounded,
                size_bytes: CORNER_PREFERENCE_SIZE_BYTES,
            },
        ),
        (
            CornerState::AwaitingCompositor,
            CornerEvent::CompositorReplied { failure: Some(detail) },
        ) => (
            CornerState::Finished { outcome: Err(DecorError::CompositorAttribute { detail }) },
            CornerEffect::Done,
        ),
        (CornerState::AwaitingCompositor, CornerEvent::CompositorReplied { failure: None }) => (
            CornerState::Finished { outcome: Ok(()) },
            CornerEffect::Done,
        ),
        (leftover, _) => (leftover, CornerEffect::Done),
    }
}

/// A complete successful run of the opacity operation on a platform with
/// layered windows: the handle is resolved, the style word that was read
/// is written back with the layered bit set, the alpha byte the request
/// quantised to is handed to the compositor, and success is reported.
pub proof fn lemma_opacity_success_run(alpha_millis: int, ex_style: u32)
    ensures
        ({
            let (s1, e1) = opacity_next(
                OpacityState::CheckingPlatform,
                OpacityEvent::PlatformChecked { layering_supported: true },
                alpha_millis,
            );
            let (s2, e2) = opacity_next(
                s1,
                OpacityEvent::HandleResolved { failure: None },
                alpha_millis,
            );
            let (s3, e3) = opacity_next(s2, OpacityEvent::StyleRead { ex_style }, alpha_millis);
            let (s4, e4) = opacity_next(
                s3,
                OpacityEvent::CompositorReplied { failure: None },
                alpha_millis,
            );
            &&& e1 == OpacityEffect::ResolveHandle
            &&& e2 == OpacityEffect::ReadStyle
            &&& e3 == (OpacityEffect::ApplyLayeredAlpha {
                ex_style: with_layered(ex_style),
                alpha: alpha_of_millis(alpha_millis) as u8,
            })
            &&& e4 == OpacityEffect::Done
            &&& s4 == (OpacityState::Finished { outcome: Ok::<(), DecorError>(()) })
        }),
{
}

/// A complete successful run of the corner operation: the handle is
/// resolved, the rounded preference is handed to the compositor as a
/// four-byte code, and success is reported.
pub proof fn lemma_corner_success_run()
    ensures
        ({
            let (s1, e1) = corner_next(
                CornerState::ResolvingHandle,
                CornerEvent::HandleResolved { failure: None },
            );
            let (s2, e2) = corner_next(s1, CornerEvent::CompositorReplied { failure: None });
            &&& e1 == (CornerEffect::ApplyCornerPreference {
                preference: CornerPreference::Rounded,
                size_bytes: CORNER_PREFERENCE_SIZE_BYTES,
            })
            &&& e2 == CornerEffect::Done
            &&& s2 == (CornerState::Finished { outcome: Ok::<(), DecorError>(()) })
        }),
{
}

/// On a platform without layered windows, the opacity operation finishes
/// successfully at its first step and asks for no native call at all.
pub proof fn lemma_unsupported_platform_is_silent_success(alpha_millis: int)
    ensures
        ({
            let (state, effect) = opacity_next(
                OpacityState::CheckingPlatform,
                OpacityEvent::PlatformChecked { layering_supported: false },
                alpha_millis,
            );
            &&& state == (OpacityState::Finished { outcome: Ok::<(), DecorError>(()) })
            &&& effect == OpacityEffect::Done
        }),
{
}

/// A window handle that cannot be resolved finishes the opacity operation
/// with a failure whose message is the resolution error itself, and asks
/// for no further native call.
pub proof fn lemma_unresolved_handle_fails_opacity(detail: String, alpha_millis: int)
    ensures
        ({
            let (state, effect) = opacity_next(
                OpacityState::ResolvingHandle,
                OpacityEvent::HandleResolved { failure: Some(detail) },
                alpha_millis,
            );
            &&& effect == OpacityEffect::Done
            &&& state matches OpacityState::Finished { outcome } && outcome matches Err(failure)
                && failure.message_spec() == detail@
        }),
{
}

/// A window handle that cannot be resolved finishes the corner operation
/// with a failure whose message is the resolution error itself, and asks
/// for no further native call.
pub proof fn lemma_unresolved_handle_fails_corner(detail: String)
    ensures
        ({
            let (state, effect) = corner_next(
                CornerState::ResolvingHandle,
                CornerEvent::HandleResolved { failure: Some(detail) },
            );
            &&& effect == CornerEffect::Done
            &&& state matches CornerState::Finished { outcome } && outcome matches Err(failure)
                && failure.message_spec() == detail@
        }),
{
}

/// Every style word the opacity operation ever asks the driver to write
/// has the layered bit set, whatever was read and whatever was requested:
/// a window that was not layered becomes layered, and a second call with
/// another opacity never unsets the bit.
pub proof fn lemma_opacity_always_sets_layered_bit(
    state: OpacityState,
    event: OpacityEvent,
    alpha_millis: int,
)
    ensures
        (opacity_next(state, event, alpha_millis).1 matches OpacityEffect::ApplyLayeredAlpha {
            ex_style,
            ..
        } ==> ex_style & WS_EX_LAYERED_BIT == WS_EX_LAYERED_BIT),
{
    match (state, event) {
        (OpacityState::ReadingStyle { .. }, OpacityEvent::StyleRead { ex_style }) => {
            crate::opacity::lemma_layered_bit_is_sticky(ex_style);
        },
        _ => {},
    }
}

/// The corner operation only ever requests the rounded preference, as a
/// four-byte code: never the system default, the square one, nor the
/// small-rounded one.
pub proof fn lemma_corner_request_is_always_rounded(state: CornerState, event: CornerEvent)
    ensures
        (corner_next(state, event).1 matches CornerEffect::ApplyCornerPreference {
            preference,
            size_bytes,
        } ==> preference == CornerPreference::Rounded && size_bytes
            == CORNER_PREFERENCE_SIZE_BYTES),
{
}

} // verus!
