//! Predicates on updates, each returned as a closure.

use vstd::prelude::*;
use crate::extract::{is_command, is_command_text, new_message_of, payload_answer, payload_has_command};
use crate::text::trim_spec;
use crate::json::string_member;
use crate::text::str_eq;
use crate::types::{KnownUpdate, Update, UpdateKind};

verus! {

/// Whether an update is a new message whose text is the command `prefix`.
pub open spec fn command_spec(update: Update, prefix: Seq<char>) -> bool {
    match new_message_of(update) {
        Some(o) => is_command_text(o.message.text@, prefix),
        None => false,
    }
}

/// Filter for a text command: the trimmed text is `prefix`, or starts with
/// `prefix` and a space.
pub fn command(prefix: &'static str) -> (f: impl Fn(&Update) -> bool)
    ensures
        forall|u: &Update| #[trigger] call_requires(f, (u,)),
        forall|u: &Update, b: bool| call_ensures(f, (u,), b) ==> b == command_spec(*u, prefix@),
{
    move |update: &Update| -> (b: bool)
        ensures
            b == command_spec(*update, prefix@),
        {
            match &update.kind {
                UpdateKind::Known(KnownUpdate::MessageNew { object }) => is_command(
                    object.message.text.as_str(),
                    prefix,
                ),
                _ => false,
            }
        }
}

/// Whether an update is a new message whose payload holds the command
/// `start`.
pub open spec fn is_start_spec(update: Update) -> bool {
    match new_message_of(update) {
        Some(o) => payload_has_command(o.message.payload, "start"@),
        None => false,
    }
}

/// Filter for the "Start" button: the payload of a new message is a JSON
/// object whose `command` member is the string `start`.
pub fn is_start() -> (f: impl Fn(&Update) -> bool)
    ensures
        forall|u: &Update| #[trigger] call_requires(f, (u,)),
        forall|u: &Update, b: bool| call_ensures(f, (u,), b) ==> b == is_start_spec(*u),
        forall|u: &Update, b: bool| call_ensures(f, (u,), b) ==> payload_answer(*u, "start"@, b),
{
    move |update: &Update| -> (b: bool)
        ensures
            b == is_start_spec(*update),
            payload_answer(*update, "start"@, b),
        {
            match &update.kind {
                UpdateKind::Known(KnownUpdate::MessageNew { object }) => match &object.message.payload {
                    Some(p) => match string_member(p.as_str(), "command") {
                        Some(cmd) => str_eq(cmd.as_str(), "start"),
                        None => false,
                    },
                    None => false,
                },
                _ => false,
            }
        }
}

/// Whether an update is a new message whose text is exactly `expected`.
pub open spec fn is_text_spec(update: Update, expected: Seq<char>) -> bool {
    match new_message_of(update) {
        Some(o) => o.message.text@ == expected,
        None => false,
    }
}

/// Filter for a message with exactly the text `expected`.
pub fn is_text(expected: &'static str) -> (f: impl Fn(&Update) -> bool)
    ensures
        forall|u: &Update| #[trigger] call_requires(f, (u,)),
        forall|u: &Update, b: bool| call_ensures(f, (u,), b) ==> b == is_text_spec(*u, expected@),
{
    move |update: &Update| -> (b: bool)
        ensures
            b == is_text_spec(*update, expected@),
        {
            match &update.kind {
                UpdateKind::Known(KnownUpdate::MessageNew { object }) => str_eq(
                    object.message.text.as_str(),
                    expected,
                ),
                _ => false,
            }
        }
}

/// Whether an update is a press of a callback button.
pub open spec fn is_callback_spec(update: Update) -> bool {
    update.kind matches UpdateKind::Known(KnownUpdate::MessageEvent { .. })
}

/// Filter for every `message_event` update (presses of inline callback
/// buttons).
pub fn is_callback() -> (f: impl Fn(&Update) -> bool)
    ensures
        forall|u: &Update| #[trigger] call_requires(f, (u,)),
        forall|u: &Update, b: bool| call_ensures(f, (u,), b) ==> b == is_callback_spec(*u),
{
    move |update: &Update| -> (b: bool)
        ensures
            b == is_callback_spec(*update),
        {
            match &update.kind {
                UpdateKind::Known(KnownUpdate::MessageEvent { .. }) => true,
                _ => false,
            }
        }
}

/// Whether an update is a new message.
pub open spec fn any_message_spec(update: Update) -> bool {
    new_message_of(update) is Some
}

/// Filter for any new message.
pub fn any_message() -> (f: impl Fn(&Update) -> bool)
    ensures
        forall|u: &Update| #[trigger] call_requires(f, (u,)),
        forall|u: &Update, b: bool| call_ensures(f, (u,), b) ==> b == any_message_spec(*u),
{
    move |update: &Update| -> (b: bool)
        ensures
            b == any_message_spec(*update),
        {
            match &update.kind {
                UpdateKind::Known(KnownUpdate::MessageNew { .. }) => true,
                _ => false,
            }
        }
}

/// Which updates the message filters accept, by the kind of the update:
/// only `message_new` events are messages, whatever they hold; on one,
/// `command` holds exactly when the trimmed text is the prefix or starts
/// with the prefix and a space, and `is_text` exactly when the text is the
/// expected one; `is_callback` holds exactly on `message_event` events.
pub proof fn filters_follow_the_update_kind(u: Update, prefix: Seq<char>, expected: Seq<char>)
    ensures
        any_message_spec(u) <==> u.kind matches UpdateKind::Known(KnownUpdate::MessageNew { .. }),
        is_callback_spec(u) <==> u.kind matches UpdateKind::Known(
            KnownUpdate::MessageEvent { .. },
        ),
        u.kind matches UpdateKind::Known(KnownUpdate::MessageNew { object }) ==> ((command_spec(
            u,
            prefix,
        ) <==> (trim_spec(object.message.text@) == prefix || prefix.push(' ').is_prefix_of(
            trim_spec(object.message.text@),
        ))) && (is_text_spec(u, expected) <==> object.message.text@ == expected)),
        !(u.kind matches UpdateKind::Known(KnownUpdate::MessageNew { .. })) ==> (!command_spec(
            u,
            prefix,
        ) && !is_text_spec(u, expected) && !is_start_spec(u)),
{
}

/// The predicate filters and the extracting filters of
/// [`crate::extract`] accept the same updates: a predicate holds exactly when
/// the matching extractor yields an object (as their contracts state it).
pub proof fn predicates_agree_with_extractors(u: Update, prefix: Seq<char>, expected: Seq<char>)
    ensures
        command_spec(u, prefix) == (match new_message_of(u) {
            Some(o) => if is_command_text(o.message.text@, prefix) {
                Some(o)
            } else {
                None
            },
            None => None,
        }) is Some,
        is_text_spec(u, expected) == (match new_message_of(u) {
            Some(o) => if o.message.text@ == expected {
                Some(o)
            } else {
                None
            },
            None => None,
        }) is Some,
        is_start_spec(u) == (match new_message_of(u) {
            Some(o) => if payload_has_command(o.message.payload, "start"@) {
                Some(o)
            } else {
                None
            },
            None => None,
        }) is Some,
        is_callback_spec(u) == (match u.kind {
            UpdateKind::Known(KnownUpdate::MessageEvent { object }) => Some(object),
            _ => None,
        }) is Some,
        any_message_spec(u) == new_message_of(u) is Some,
{
}

} // verus!
