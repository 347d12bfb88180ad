//! Extraction of the object that an update carries, for each kind of filter.

use vstd::prelude::*;
use crate::json::{json_object_text, json_string_member, member_value, plain_json_object, string_member};
use crate::text::{starts_with, str_eq, trim, trim_spec};
use crate::types::{
    first_voice, Attachment, AudioMessage, KnownUpdate, MessageEventObject, MessageNewObject,
    Update, UpdateKind,
};

verus! {

/// The new message an update carries, if it is one.
pub open spec fn new_message_of(update: Update) -> Option<MessageNewObject> {
    match update.kind {
        UpdateKind::Known(KnownUpdate::MessageNew { object }) => Some(object),
        _ => None,
    }
}

/// Whether a message payload (JSON text) is an object whose `command`
/// member is the string `expected`.
pub open spec fn payload_has_command(payload: Option<String>, expected: Seq<char>) -> bool {
    match payload {
        Some(p) => json_string_member(p@, "command"@) == Some(expected),
        None => false,
    }
}

/// Whether `matched` answers a payload-command filter for `expected` on
/// `u` as the payload decides: only a `message_new` event with a payload can
/// match, and when the payload is the JSON text of an object of string
/// members, it matches exactly when its member named `command` is
/// `expected`, whatever other members it has.
pub open spec fn payload_answer(u: Update, expected: Seq<char>, matched: bool) -> bool {
    match u.kind {
        UpdateKind::Known(KnownUpdate::MessageNew { object }) => match object.message.payload {
            Some(p) => forall|m: Seq<(Seq<char>, Seq<char>)>|
                #[trigger] json_object_text(m) == p@ && plain_json_object(m) ==> (matched
                    <==> member_value(m, "command"@) == Some(expected)),
            None => !matched,
        },
        _ => !matched,
    }
}

/// The new message of an update is the object of a `message_new` event,
/// whatever the message holds (its attachments, its peer, its sender), and
/// no other kind of event has one.
pub proof fn new_message_is_the_message_new_object(u: Update, o: MessageNewObject)
    ensures
        u.kind == UpdateKind::Known(KnownUpdate::MessageNew { object: o }) ==> new_message_of(u)
            == Some(o),
        new_message_of(u) == Some(o) ==> u.kind == UpdateKind::Known(
            KnownUpdate::MessageNew { object: o },
        ),
        !(u.kind matches UpdateKind::Known(KnownUpdate::MessageNew { .. })) ==> new_message_of(
            u,
        ) is None,
{
}

/// Whether a message text is the command `prefix`: after trimming white
/// space it is `prefix` itself, or `prefix` followed by a space and more.
pub open spec fn is_command_text(text: Seq<char>, prefix: Seq<char>) -> bool {
    let t = trim_spec(text);
    t == prefix || prefix.push(' ').is_prefix_of(t)
}

/// Extracts the new message an update carries.
pub fn new_message(update: Update) -> (r: Option<MessageNewObject>)
    ensures
        r == new_message_of(update),
{
    match update.kind {
        UpdateKind::Known(KnownUpdate::MessageNew { object }) => Some(object),
        _ => None,
    }
}

/// Extracts the new message an update carries when its payload holds the
/// command `expected`.
pub fn payload_command_message(update: Update, expected: &str) -> (r: Option<MessageNewObject>)
    ensures
        r == (match new_message_of(update) {
            Some(o) => if payload_has_command(o.message.payload, expected@) {
                Some(o)
            } else {
                None
            },
            None => None,
        }),
        payload_answer(update, expected@, r is Some),
{
    match update.kind {
        UpdateKind::Known(KnownUpdate::MessageNew { object }) => {
            let matches = match &object.message.payload {
                Some(p) => match string_member(p.as_str(), "command") {
                    Some(cmd) => str_eq(cmd.as_str(), expected),
                    None => false,
                },
                None => false,
            };
            if matches {
                Some(object)
            } else {
                None
            }
        },
        _ => None,
    }
}

/// Extracts the callback event an update carries.
pub fn callback_event(update: Update) -> (r: Option<MessageEventObject>)
    ensures
        r == (match update.kind {
            UpdateKind::Known(KnownUpdate::MessageEvent { object }) => Some(object),
            _ => None,
        }),
{
    match update.kind {
        UpdateKind::Known(KnownUpdate::MessageEvent { object }) => Some(object),
        _ => None,
    }
}

/// Whether `text` is the command `prefix` (see [`is_command_text`]).
pub fn is_command(text: &str, prefix: &str) -> (r: bool)
    ensures
        r == is_command_text(text@, prefix@),
{
    let t = trim(text);
    if str_eq(t, prefix) {
        return true;
    }
    let n = prefix.unicode_len();
    if starts_with(t, prefix) && n < t.unicode_len() {
        let c = t.get_char(n);
        proof {
            let q = prefix@.push(' ');
            if c == ' ' {
                assert(q =~= t@.subrange(0, q.len() as int)) by {
                    assert forall|j: int| 0 <= j < q.len() implies q[j] == t@[j] by {
                        if j < n {
                            assert(prefix@[j] == t@.subrange(0, n as int)[j]);
                        }
                    }
                }
            }
            if q.is_prefix_of(t@) {
                assert(q[n as int] == t@.subrange(0, q.len() as int)[n as int]);
            }
        }
        c == ' '
    } else {
        proof {
            let q = prefix@.push(' ');
            if q.is_prefix_of(t@) {
                assert(prefix@ =~= t@.subrange(0, prefix@.len() as int)) by {
                    assert forall|j: int| 0 <= j < prefix@.len() implies prefix@[j] == t@[j] by {
                        assert(q[j] == t@.subrange(0, q.len() as int)[j]);
                    }
                }
            }
        }
        false
    }
}

/// Extracts the new message an update carries when its text is the command
/// `prefix`.
pub fn command_message(update: Update, prefix: &str) -> (r: Option<MessageNewObject>)
    ensures
        r == (match new_message_of(update) {
            Some(o) => if is_command_text(o.message.text@, prefix@) {
                Some(o)
            } else {
                None
            },
            None => None,
        }),
{
    match update.kind {
        UpdateKind::Known(KnownUpdate::MessageNew { object }) => {
            if is_command(object.message.text.as_str(), prefix) {
                Some(object)
            } else {
                None
            }
        },
        _ => None,
    }
}

/// Extracts the new message an update carries when its text is exactly
/// `expected`.
pub fn text_message(update: Update, expected: &str) -> (r: Option<MessageNewObject>)
    ensures
        r == (match new_message_of(update) {
            Some(o) => if o.message.text@ == expected@ {
                Some(o)
            } else {
                None
            },
            None => None,
        }),
{
    match update.kind {
        UpdateKind::Known(KnownUpdate::MessageNew { object }) => {
            if str_eq(object.message.text.as_str(), expected) {
                Some(object)
            } else {
                None
            }
        },
        _ => None,
    }
}

/// Extracts the first voice message attached to a new message.
pub fn voice_attachment(object: MessageNewObject) -> (r: Option<AudioMessage>)
    ensures
        r == first_voice(object.message.attachments@),
{
    let mut atts = object.message.attachments;
    let ghost all = atts@;
    let n = atts.len();
    let mut i: usize = 0;
    assert(all.skip(0) =~= all);
    while i < n
        invariant
            atts@ == all,
            all == object.message.attachments@,
            n == all.len(),
            i <= n,
            first_voice(all) == first_voice(all.skip(i as int)),
        decreases n - i,
    {
        assert(all.skip(i as int).drop_first() =~= all.skip(i + 1));
        if let Attachment::AudioMessage { .. } = &atts[i] {
            let removed = atts.remove(i);
            assert(all.skip(i as int)[0] == all[i as int]);
            match removed {
                Attachment::AudioMessage { content } => {
                    return Some(content);
                },
                Attachment::Unknown => {
                    return None;
                },
            }
        }
        i = i + 1;
    }
    None
}

} // verus!
