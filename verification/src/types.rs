//! The data that VK sends and the errors of the library.
//!
//! Values that VK sends as free-form JSON (an unrecognised event, a callback
//! payload, client information, forwarded messages) are held as their JSON
//! text.

use vstd::prelude::*;

verus! {

/// The outside error type of an HTTP request.
#[verifier::external_type_specification]
#[verifier::external_body]
pub struct ExReqwestError(reqwest::Error);

/// The outside error type of a send on a closed channel.
#[verifier::external_type_specification]
#[verifier::external_body]
#[verifier::reject_recursive_types(T)]
pub struct ExSendError<T>(tokio::sync::mpsc::error::SendError<T>);

/// The envelope of every VK API answer: either the payload or an error.
#[derive(Debug, Clone)]
pub enum Response<T> {
    Success { response: T },
    Failure { error: ApiError },
}

/// An error reported by the VK API.
#[derive(Debug, Clone)]
pub struct ApiError {
    pub error_code: i32,
    pub error_msg: String,
    pub request_params: Vec<RequestParam>,
}

/// One request parameter echoed back in an [`ApiError`].
#[derive(Debug, Clone)]
pub struct RequestParam {
    pub key: String,
    pub value: String,
}

/// The errors of the library.
#[derive(Debug)]
pub enum VkError {
    /// The API answered with an error.
    Api(ApiError),
    /// The HTTP request failed.
    Http(reqwest::Error),
    /// The shutdown signal could not be delivered.
    Send(tokio::sync::mpsc::error::SendError<()>),
    /// An update of a type the library does not know, as JSON text.
    UnknownUpdate(String),
}

/// Connection data of a Long Poll server.
#[derive(Debug, Clone)]
pub struct LongPollServer {
    pub server: String,
    pub key: String,
    pub ts: String,
}

/// One answer of a Long Poll server.
///
/// `ts` is the event marker as text, whether the server sent it as a JSON
/// string or a JSON number.
#[derive(Debug, Clone)]
pub struct LongPollResponse {
    pub ts: Option<String>,
    pub updates: Option<Vec<Update>>,
    pub failed: Option<i32>,
}

/// One event delivered by the Long Poll server.
#[derive(Debug, Clone)]
pub struct Update {
    pub event_id: String,
    pub group_id: i64,
    pub v: String,
    pub kind: UpdateKind,
}

/// An event the library recognises, or the JSON text of one it does not.
#[derive(Debug, Clone)]
pub enum UpdateKind {
    Known(KnownUpdate),
    Unknown(String),
}

/// The events the library recognises.
#[derive(Debug, Clone)]
pub enum KnownUpdate {
    MessageReply { object: MessageObject },
    MessageNew { object: MessageNewObject },
    MessageTypingState { object: TypingStateObject },
    MessageRead { object: MessageReadObject },
    MessageEvent { object: MessageEventObject },
}

#[derive(Debug, Clone)]
pub struct TypingStateObject {
    pub from_id: i64,
    pub to_id: i64,
    pub state: String,
}

#[derive(Debug, Clone)]
pub struct User {
    pub id: i64,
    pub first_name: String,
    pub last_name: String,
    pub is_closed: Option<bool>,
    pub can_access_closed: Option<bool>,
    pub screen_name: Option<String>,
}

#[derive(Debug, Clone)]
pub struct Conversation {
    pub peer: Peer,
    pub chat_settings: Option<ChatSettings>,
}

#[derive(Debug, Clone)]
pub struct Peer {
    pub id: i64,
    pub peer_type: String,
    pub local_id: i64,
}

#[derive(Debug, Clone)]
pub struct ChatSettings {
    pub title: String,
    pub members_count: i64,
}

#[derive(Debug, Clone)]
pub struct ConversationsResponse {
    pub count: i64,
    pub items: Vec<Conversation>,
}

#[derive(Debug, Clone)]
pub struct MessageReadObject {
    pub from_id: i64,
    pub peer_id: i64,
    pub read_message_id: i64,
    pub conversation_message_id: Option<i64>,
}

/// A press of a callback button; `payload` is JSON text.
#[derive(Debug, Clone)]
pub struct MessageEventObject {
    pub user_id: i64,
    pub peer_id: i64,
    pub event_id: String,
    pub payload: Option<String>,
    pub conversation_message_id: i64,
}

#[derive(Debug, Clone)]
pub struct AudioMessage {
    pub id: i64,
    pub owner_id: i64,
    pub duration: u32,
    pub waveform: Vec<i32>,
    pub link_ogg: String,
    pub link_mp3: String,
    pub access_key: Option<String>,
}

/// An attachment of a message; only voice messages are told apart.
#[derive(Debug, Clone)]
pub enum Attachment {
    AudioMessage { content: AudioMessage },
    Unknown,
}

/// A new incoming message; `client_info` is JSON text.
#[derive(Debug, Clone)]
pub struct MessageNewObject {
    pub message: MessageObject,
    pub client_info: Option<String>,
}

/// A message; each element of `fwd_messages` is JSON text.
#[derive(Debug, Clone)]
pub struct MessageObject {
    pub admin_author_id: Option<i64>,
    pub attachments: Vec<Attachment>,
    pub conversation_message_id: i64,
    pub date: i64,
    pub from_id: i64,
    pub fwd_messages: Vec<String>,
    pub id: i64,
    pub important: bool,
    pub is_hidden: bool,
    pub out: i32,
    pub peer_id: i64,
    pub random_id: i64,
    pub text: String,
    pub payload: Option<String>,
    pub version: i64,
}

/// The first voice message among `atts`, if any.
pub open spec fn first_voice(atts: Seq<Attachment>) -> Option<AudioMessage>
    decreases atts.len(),
{
    if atts.len() == 0 {
        None
    } else {
        match atts[0] {
            Attachment::AudioMessage { content } => Some(content),
            Attachment::Unknown => first_voice(atts.drop_first()),
        }
    }
}

/// The first voice message of a list of attachments is the voice message
/// at the first index that holds one, whatever follows it.
pub proof fn first_voice_is_the_first_audio(atts: Seq<Attachment>, i: int, a: AudioMessage)
    requires
        0 <= i < atts.len(),
        atts[i] == (Attachment::AudioMessage { content: a }),
        forall|j: int| 0 <= j < i ==> atts[j] is Unknown,
    ensures
        first_voice(atts) == Some(a),
    decreases i,
{
    if i > 0 {
        first_voice_is_the_first_audio(atts.drop_first(), i - 1, a);
    }
}

/// A list of attachments has no voice message exactly when none of them is
/// one.
pub proof fn no_voice_without_audio(atts: Seq<Attachment>)
    ensures
        first_voice(atts) is None <==> forall|j: int| 0 <= j < atts.len() ==> atts[j] is Unknown,
    decreases atts.len(),
{
    if atts.len() > 0 {
        no_voice_without_audio(atts.drop_first());
        if atts[0] is Unknown {
            assert forall|j: int| 0 <= j < atts.len() && (forall|k: int| 0 <= k < atts.drop_first().len() ==> atts.drop_first()[k] is Unknown) implies atts[j] is Unknown by {
                if j > 0 {
                    assert(atts[j] == atts.drop_first()[j - 1]);
                }
            }
            assert((forall|j: int| 0 <= j < atts.len() ==> atts[j] is Unknown) ==> (forall|k: int| 0 <= k < atts.drop_first().len() ==> atts.drop_first()[k] is Unknown)) by {
                assert forall|k: int| 0 <= k < atts.drop_first().len() && (forall|j: int| 0 <= j < atts.len() ==> atts[j] is Unknown) implies atts.drop_first()[k] is Unknown by {
                    assert(atts.drop_first()[k] == atts[k + 1]);
                }
            }
        }
    }
}

impl MessageObject {
    /// The first voice message attached to this message, if any.
    pub fn voice_message(&self) -> (r: Option<&AudioMessage>)
        ensures
            match r {
                Some(a) => first_voice(self.attachments@) == Some(*a),
                None => first_voice(self.attachments@) is None,
            },
    {
        let n = self.attachments.len();
        let mut i: usize = 0;
        assert(self.attachments@.skip(0) =~= self.attachments@);
        while i < n
            invariant
                n == self.attachments@.len(),
                i <= n,
                first_voice(self.attachments@) == first_voice(self.attachments@.skip(i as int)),
            decreases n - i,
        {
            assert(self.attachments@.skip(i as int).drop_first() =~= self.attachments@.skip(
                i + 1,
            ));
            match &self.attachments[i] {
                Attachment::AudioMessage { content } => {
                    return Some(content);
                },
                Attachment::Unknown => {},
            }
            i = i + 1;
        }
        None
    }
}

impl UpdateKind {
    /// The VK name of this event type, or `unknown`.
    pub open spec fn event_type_spec(&self) -> Seq<char> {
        match self {
            UpdateKind::Known(KnownUpdate::MessageNew { .. }) => "message_new"@,
            UpdateKind::Known(KnownUpdate::MessageReply { .. }) => "message_reply"@,
            UpdateKind::Known(KnownUpdate::MessageTypingState { .. }) => "message_typing_state"@,
            UpdateKind::Known(KnownUpdate::MessageRead { .. }) => "message_read"@,
            UpdateKind::Known(KnownUpdate::MessageEvent { .. }) => "message_event"@,
            UpdateKind::Unknown(_) => "unknown"@,
        }
    }

    /// The VK name of this event type, or `unknown`.
    pub fn event_type(&self) -> (r: &'static str)
        ensures
            r@ == self.event_type_spec(),
    {
        match self {
            UpdateKind::Known(KnownUpdate::MessageNew { .. }) => "message_new",
            UpdateKind::Known(KnownUpdate::MessageReply { .. }) => "message_reply",
            UpdateKind::Known(KnownUpdate::MessageTypingState { .. }) => "message_typing_state",
            UpdateKind::Known(KnownUpdate::MessageRead { .. }) => "message_read",
            UpdateKind::Known(KnownUpdate::MessageEvent { .. }) => "message_event",
            UpdateKind::Unknown(_) => "unknown",
        }
    }
}

impl TryFrom<UpdateKind> for KnownUpdate {
    type Error = VkError;

    fn try_from(value: UpdateKind) -> (r: Result<Self, Self::Error>) {
        match value {
            UpdateKind::Known(k) => Ok(k),
            UpdateKind::Unknown(u) => Err(VkError::UnknownUpdate(u)),
        }
    }
}

impl vstd::std_specs::convert::TryFromSpecImpl<UpdateKind> for KnownUpdate {
    open spec fn obeys_try_from_spec() -> bool {
        true
    }

    open spec fn try_from_spec(value: UpdateKind) -> Result<Self, VkError> {
        match value {
            UpdateKind::Known(k) => Ok(k),
            UpdateKind::Unknown(u) => Err(VkError::UnknownUpdate(u)),
        }
    }
}

} // verus!
