//! The lifecycle state machine: what to do with a body marked for removal.
//!
//! A passive body is removed at once, with a notification. A character
//! enters (or continues) its departure instead: while its body is still
//! enabled it is disabled and the one notification is emitted; once
//! disabled, further marks are silent, until the character is `Dead` and
//! the body is removed without a second notification.

use vstd::prelude::*;
use crate::lifetime::CharacterState;
use crate::world::{BodyRecord, BodyType};

verus! {

/// The decision for one marked body.
#[derive(Debug, Clone, Copy, PartialEq, Eq, Structural)]
pub enum RemovalAction {
    /// Remove the body now and emit `Destroyed`.
    DestroyNotify,
    /// Remove the body now, silently: the notification was already emitted
    /// when the body was disabled.
    DestroyQuiet,
    /// Keep the body, disabled, so its departure animation can play; emit
    /// the one `Destroyed` notification now.
    DisableNotify,
    /// Keep the body as it is: it is already disabled and already notified.
    KeepSilent,
}

impl RemovalAction {
    /// Whether the decision emits a `Destroyed` event.
    pub open spec fn notifies(self) -> bool {
        self is DestroyNotify || self is DisableNotify
    }

    /// Whether the body's record survives the decision.
    pub open spec fn keeps(self) -> bool {
        self is DisableNotify || self is KeepSilent
    }
}

/// The decision for a marked body: immediate notified removal for passive
/// bodies; for characters, disable-and-notify while enabled, silence while
/// disabled, and quiet removal once `Dead`.
pub open spec fn spec_removal_action(r: BodyRecord) -> RemovalAction {
    match r.body_type {
        BodyType::Character(c) => match c.spec_state() {
            CharacterState::Alive | CharacterState::Death => if r.enabled {
                RemovalAction::DisableNotify
            } else {
                RemovalAction::KeepSilent
            },
            CharacterState::Dead => RemovalAction::DestroyQuiet,
        },
        _ => RemovalAction::DestroyNotify,
    }
}

/// The record the decision leaves behind (meaningful when the record is
/// kept): a character receives the kill signal and its body is disabled.
pub open spec fn spec_removal_result(r: BodyRecord) -> BodyRecord {
    match r.body_type {
        BodyType::Character(c) => BodyRecord {
            body_type: BodyType::Character(c.spec_destroyed()),
            enabled: false,
            ..r
        },
        _ => r,
    }
}

/// Apply the removal decision to a record: deliver the kill signal, disable
/// a character's body, and report the decision taken.
pub fn apply_removal(r: &mut BodyRecord) -> (a: RemovalAction)
    requires
        old(r).wf(),
    ensures
        a == spec_removal_action(*old(r)),
        *final(r) == spec_removal_result(*old(r)),
        final(r).wf(),
        final(r).id == old(r).id,
{
    match &mut r.body_type {
        BodyType::Character(character) => {
            let was_enabled = r.enabled;
            let state = character.state();
            character.destroy();
            r.enabled = false;
            match state {
                CharacterState::Alive | CharacterState::Death => {
                    if was_enabled {
                        RemovalAction::DisableNotify
                    } else {
                        RemovalAction::KeepSilent
                    }
                },
                CharacterState::Dead => RemovalAction::DestroyQuiet,
            }
        },
        _ => RemovalAction::DestroyNotify,
    }
}

/// Law: an actor entity is notified exactly once. The removal decision
/// for a character notifies if and only if the body is still enabled and
/// the character has not yet died (and a character only dies after the
/// decision that disabled it); the record the decision leaves behind is
/// disabled, and a further decision on that record never notifies again.
pub proof fn lemma_single_notification(r: BodyRecord)
    requires
        r.body_type is Character,
    ensures
        spec_removal_action(r).notifies() ==> r.enabled,
        (match r.body_type {
            BodyType::Character(c) => r.enabled && !(c.spec_state() is Dead),
            _ => false,
        }) ==> spec_removal_action(r).notifies(),
        !spec_removal_result(r).enabled,
        !spec_removal_action(spec_removal_result(r)).notifies(),
{
}

} // verus!
