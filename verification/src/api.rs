//! The requests the bot sends to the VK API and the reading of the answers.
//!
//! Each request is a method URL and a list of query parameters; sending it
//! is left to the caller.

use vstd::prelude::*;
use crate::dispatcher::params_view;
use crate::text::{decimal, int_decimal};
use crate::types::{ApiError, Conversation, ConversationsResponse, Response, User, VkError};

verus! {

/// The version of the VK API the requests ask for.
pub const API_VERSION: &'static str = "5.199";

/// The address of the VK API.
pub const API_URL: &'static str = "https://api.vk.ru";

/// The URL of the API method `method` under the base address `api_url`.
pub fn method_url(api_url: &str, method: &str) -> (r: String)
    ensures
        r@ == api_url@ + "/method/"@ + method@,
{
    let mut url = String::from_str(api_url);
    url.append("/method/");
    url.append(method);
    url
}

/// A query parameter from two strings.
fn param(key: &str, value: &str) -> (r: (String, String))
    ensures
        r.0@ == key@,
        r.1@ == value@,
{
    (String::from_str(key), String::from_str(value))
}

/// The optional last parameter `key` of a request, present when `value` is.
pub open spec fn optional_param(key: Seq<char>, value: Option<&str>) -> Seq<(Seq<char>, Seq<char>)> {
    match value {
        Some(v) => seq![(key, v@)],
        None => Seq::empty(),
    }
}

/// The parameters of `messages.send`.
pub open spec fn send_message_params_spec(
    peer_id: i64,
    message: Seq<char>,
    keyboard: Option<&str>,
) -> Seq<(Seq<char>, Seq<char>)> {
    seq![
        ("peer_id"@, int_decimal(peer_id as int)),
        ("message"@, message),
        ("random_id"@, "0"@),
        ("v"@, API_VERSION@),
    ] + optional_param("keyboard"@, keyboard)
}

/// The parameters of `messages.send`: the peer, the text, a zero
/// `random_id`, the API version and, when given, the keyboard as JSON text.
pub fn send_message_params(peer_id: i64, message: &str, keyboard: Option<&str>) -> (r: Vec<
    (String, String),
>)
    ensures
        params_view(r@) == send_message_params_spec(peer_id, message@, keyboard),
{
    let peer = decimal(peer_id);
    let mut params: Vec<(String, String)> = Vec::new();
    params.push(param("peer_id", peer.as_str()));
    params.push(param("message", message));
    params.push(param("random_id", "0"));
    params.push(param("v", API_VERSION));
    if let Some(kb) = keyboard {
        params.push(param("keyboard", kb));
    }
    assert(params_view(params@) =~= send_message_params_spec(peer_id, message@, keyboard));
    params
}

/// The parameters of `users.get`.
pub open spec fn get_user_params_spec(user_id: i64) -> Seq<(Seq<char>, Seq<char>)> {
    seq![("user_ids"@, int_decimal(user_id as int)), ("v"@, API_VERSION@)]
}

/// The parameters of `users.get`: the user and the API version.
pub fn get_user_params(user_id: i64) -> (r: Vec<(String, String)>)
    ensures
        params_view(r@) == get_user_params_spec(user_id),
{
    let user = decimal(user_id);
    let mut params: Vec<(String, String)> = Vec::new();
    params.push(param("user_ids", user.as_str()));
    params.push(param("v", API_VERSION));
    assert(params_view(params@) =~= get_user_params_spec(user_id));
    params
}

/// The parameters of `messages.getConversationsById`.
pub open spec fn get_conversation_params_spec(peer_id: i64, group_id: Seq<char>) -> Seq<
    (Seq<char>, Seq<char>),
> {
    seq![
        ("peer_ids"@, int_decimal(peer_id as int)),
        ("group_id"@, group_id),
        ("v"@, API_VERSION@),
    ]
}

/// The parameters of `messages.getConversationsById`: the peer, the group
/// and the API version.
pub fn get_conversation_params(peer_id: i64, group_id: &str) -> (r: Vec<(String, String)>)
    ensures
        params_view(r@) == get_conversation_params_spec(peer_id, group_id@),
{
    let peer = decimal(peer_id);
    let mut params: Vec<(String, String)> = Vec::new();
    params.push(param("peer_ids", peer.as_str()));
    params.push(param("group_id", group_id));
    params.push(param("v", API_VERSION));
    assert(params_view(params@) =~= get_conversation_params_spec(peer_id, group_id@));
    params
}

/// The parameters of `messages.sendMessageEventAnswer`.
pub open spec fn event_answer_params_spec(
    event_id: Seq<char>,
    user_id: i64,
    peer_id: i64,
    event_data: Option<&str>,
) -> Seq<(Seq<char>, Seq<char>)> {
    seq![
        ("event_id"@, event_id),
        ("user_id"@, int_decimal(user_id as int)),
        ("peer_id"@, int_decimal(peer_id as int)),
        ("v"@, API_VERSION@),
    ] + optional_param("event_data"@, event_data)
}

/// The parameters of `messages.sendMessageEventAnswer`: the event, the user,
/// the peer, the API version and, when given, the action as JSON text.
pub fn event_answer_params(
    event_id: &str,
    user_id: i64,
    peer_id: i64,
    event_data: Option<&str>,
) -> (r: Vec<(String, String)>)
    ensures
        params_view(r@) == event_answer_params_spec(event_id@, user_id, peer_id, event_data),
{
    let user = decimal(user_id);
    let peer = decimal(peer_id);
    let mut params: Vec<(String, String)> = Vec::new();
    params.push(param("event_id", event_id));
    params.push(param("user_id", user.as_str()));
    params.push(param("peer_id", peer.as_str()));
    params.push(param("v", API_VERSION));
    if let Some(data) = event_data {
        params.push(param("event_data", data));
    }
    assert(params_view(params@) =~= event_answer_params_spec(
        event_id@,
        user_id,
        peer_id,
        event_data,
    ));
    params
}

/// The parameters of `groups.getLongPollServer`.
pub open spec fn long_poll_server_params_spec(group_id: Seq<char>) -> Seq<(Seq<char>, Seq<char>)> {
    seq![("group_id"@, group_id), ("v"@, API_VERSION@)]
}

/// The parameters of `groups.getLongPollServer`: the group and the API
/// version.
pub fn long_poll_server_params(group_id: &str) -> (r: Vec<(String, String)>)
    ensures
        params_view(r@) == long_poll_server_params_spec(group_id@),
{
    let mut params: Vec<(String, String)> = Vec::new();
    params.push(param("group_id", group_id));
    params.push(param("v", API_VERSION));
    assert(params_view(params@) =~= long_poll_server_params_spec(group_id@));
    params
}

/// Whether `e` is the error the bot reports for an empty answer: an API
/// error with code 0, the message `msg` and no parameters.
pub open spec fn is_not_found(e: VkError, msg: Seq<char>) -> bool {
    e matches VkError::Api(a) && a.error_code == 0 && a.error_msg@ == msg
        && a.request_params@.len() == 0
}

/// The API error for an empty answer, with the message `msg`.
fn not_found(msg: &str) -> (e: VkError)
    ensures
        is_not_found(e, msg@),
{
    VkError::Api(ApiError {
        error_code: 0,
        error_msg: String::from_str(msg),
        request_params: Vec::new(),
    })
}

impl<T> Response<T> {
    /// The payload of an answer, or its API error.
    pub fn into_result(self) -> (r: Result<T, VkError>)
        ensures
            r == (match self {
                Response::Success { response } => Ok(response),
                Response::Failure { error } => Err(VkError::Api(error)),
            }),
    {
        match self {
            Response::Success { response } => Ok(response),
            Response::Failure { error } => Err(VkError::Api(error)),
        }
    }
}

/// The user of a `users.get` answer: the first one listed, or the API error
/// `User not found` when the list is empty.
pub fn user_from_response(response: Response<Vec<User>>) -> (r: Result<User, VkError>)
    ensures
        match response {
            Response::Success { response: users } => if users@.len() > 0 {
                r == Ok::<User, VkError>(users@[0])
            } else {
                r matches Err(e) && is_not_found(e, "User not found"@)
            },
            Response::Failure { error } => r == Err::<User, VkError>(VkError::Api(error)),
        },
{
    match response {
        Response::Success { response: mut users } => {
            if users.len() > 0 {
                Ok(users.remove(0))
            } else {
                Err(not_found("User not found"))
            }
        },
        Response::Failure { error } => Err(VkError::Api(error)),
    }
}

/// The conversation of a `messages.getConversationsById` answer: the first
/// item, or the API error `Conversation not found` when there is none.
pub fn conversation_from_response(response: Response<ConversationsResponse>) -> (r: Result<
    Conversation,
    VkError,
>)
    ensures
        match response {
            Response::Success { response: found } => if found.items@.len() > 0 {
                r == Ok::<Conversation, VkError>(found.items@[0])
            } else {
                r matches Err(e) && is_not_found(e, "Conversation not found"@)
            },
            Response::Failure { error } => r == Err::<Conversation, VkError>(VkError::Api(error)),
        },
{
    match response {
        Response::Success { response: found } => {
            let mut items = found.items;
            if items.len() > 0 {
                Ok(items.remove(0))
            } else {
                Err(not_found("Conversation not found"))
            }
        },
        Response::Failure { error } => Err(VkError::Api(error)),
    }
}

} // verus!
