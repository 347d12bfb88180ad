use vkoxide::api::{
    conversation_from_response, event_answer_params, get_conversation_params, get_user_params,
    long_poll_server_params, method_url, send_message_params, user_from_response, API_URL,
    API_VERSION,
};
use vkoxide::types::{
    ApiError, ChatSettings, Conversation, ConversationsResponse, Peer, RequestParam, Response,
    User, VkError,
};

fn pairs(v: &[(&str, &str)]) -> Vec<(String, String)> {
    v.iter().map(|(k, x)| (k.to_string(), x.to_string())).collect()
}

fn user(id: i64, name: &str) -> User {
    User {
        id,
        first_name: name.to_string(),
        last_name: "Doe".to_string(),
        is_closed: None,
        can_access_closed: None,
        screen_name: None,
    }
}

#[test]
fn method_urls() {
    assert_eq!(method_url("https://api.vk.ru/", "users.get"), "https://api.vk.ru//method/users.get");
    assert_eq!(method_url(API_URL, "messages.send"), "https://api.vk.ru/method/messages.send");
}

#[test]
fn send_message_parameters() {
    assert_eq!(
        send_message_params(2000000001, "hi", None),
        pairs(&[("peer_id", "2000000001"), ("message", "hi"), ("random_id", "0"), ("v", API_VERSION)])
    );
    assert_eq!(
        send_message_params(-7, "", Some("{\"one_time\":false}")),
        pairs(&[
            ("peer_id", "-7"),
            ("message", ""),
            ("random_id", "0"),
            ("v", "5.199"),
            ("keyboard", "{\"one_time\":false}"),
        ])
    );
}

#[test]
fn other_parameters() {
    assert_eq!(get_user_params(42), pairs(&[("user_ids", "42"), ("v", "5.199")]));
    assert_eq!(
        get_conversation_params(2000000001, "777"),
        pairs(&[("peer_ids", "2000000001"), ("group_id", "777"), ("v", "5.199")])
    );
    assert_eq!(
        event_answer_params("ev", 1, 2, Some("{\"type\":\"show_snackbar\",\"text\":\"x\"}")),
        pairs(&[
            ("event_id", "ev"),
            ("user_id", "1"),
            ("peer_id", "2"),
            ("v", "5.199"),
            ("event_data", "{\"type\":\"show_snackbar\",\"text\":\"x\"}"),
        ])
    );
    assert_eq!(event_answer_params("ev", 1, 2, None).len(), 4);
    assert_eq!(long_poll_server_params("12"), pairs(&[("group_id", "12"), ("v", "5.199")]));
}

#[test]
fn ids_are_sent_in_decimal() {
    assert_eq!(get_user_params(0)[0].1, "0");
    assert_eq!(get_user_params(-42)[0].1, "-42");
    assert_eq!(get_user_params(i64::MIN)[0].1, "-9223372036854775808");
    assert_eq!(get_user_params(i64::MAX)[0].1, "9223372036854775807");
}

#[test]
fn user_answers() {
    let ok = user_from_response(Response::Success { response: vec![user(1, "Ann"), user(2, "Bob")] });
    assert_eq!(ok.unwrap().first_name, "Ann");

    match user_from_response(Response::Success { response: vec![] }) {
        Err(VkError::Api(e)) => {
            assert_eq!(e.error_code, 0);
            assert_eq!(e.error_msg, "User not found");
            assert!(e.request_params.is_empty());
        }
        _ => panic!("expected an API error"),
    }

    let api_error = ApiError {
        error_code: 5,
        error_msg: "User authorization failed".to_string(),
        request_params: vec![RequestParam { key: "v".to_string(), value: "5.199".to_string() }],
    };
    match user_from_response(Response::Failure { error: api_error }) {
        Err(VkError::Api(e)) => {
            assert_eq!(e.error_code, 5);
            assert_eq!(e.request_params[0].key, "v");
        }
        _ => panic!("expected the API error"),
    }
}

#[test]
fn conversation_answers() {
    let conv = Conversation {
        peer: Peer { id: 2000000001, peer_type: "chat".to_string(), local_id: 1 },
        chat_settings: Some(ChatSettings { title: "Team".to_string(), members_count: 3 }),
    };
    let r = conversation_from_response(Response::Success {
        response: ConversationsResponse { count: 1, items: vec![conv] },
    });
    assert_eq!(r.unwrap().peer.peer_type, "chat");
    match conversation_from_response(Response::Success {
        response: ConversationsResponse { count: 0, items: vec![] },
    }) {
        Err(VkError::Api(e)) => assert_eq!(e.error_msg, "Conversation not found"),
        _ => panic!("expected an API error"),
    }
}

#[test]
fn into_result_unwraps_the_envelope() {
    let ok: Response<i64> = Response::Success { response: 3 };
    assert_eq!(ok.into_result().unwrap(), 3);
    let err: Response<i64> = Response::Failure {
        error: ApiError { error_code: 9, error_msg: "Flood control".to_string(), request_params: vec![] },
    };
    assert!(matches!(err.into_result(), Err(VkError::Api(ApiError { error_code: 9, .. }))));
}
