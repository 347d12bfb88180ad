use vkoxide::extract::{
    callback_event, command_message, new_message, payload_command_message, text_message,
    voice_attachment,
};
use vkoxide::filters::{any_message, command, is_callback, is_start, is_text};
use vkoxide::types::{
    Attachment, AudioMessage, KnownUpdate, MessageEventObject, MessageNewObject, MessageObject,
    Update, UpdateKind,
};

fn create_message_update(text: &str, payload: Option<&str>) -> Update {
    let message = MessageObject {
        admin_author_id: None,
        attachments: vec![],
        conversation_message_id: 1,
        date: 1234567,
        from_id: 1,
        fwd_messages: vec![],
        id: 1,
        important: false,
        is_hidden: false,
        out: 0,
        peer_id: 1,
        random_id: 0,
        text: text.to_string(),
        payload: payload.map(|p| p.to_string()),
        version: 1,
    };
    Update {
        event_id: "event_id1".to_string(),
        group_id: 1,
        v: "5.199".to_string(),
        kind: UpdateKind::Known(KnownUpdate::MessageNew {
            object: MessageNewObject { message, client_info: None },
        }),
    }
}

fn create_callback_update() -> Update {
    Update {
        event_id: "event_id2".to_string(),
        group_id: 1,
        v: "5.199".to_string(),
        kind: UpdateKind::Known(KnownUpdate::MessageEvent {
            object: MessageEventObject {
                user_id: 10,
                peer_id: 20,
                event_id: "abc".to_string(),
                payload: Some(r#"{"action":"info"}"#.to_string()),
                conversation_message_id: 3,
            },
        }),
    }
}

#[test]
fn test_command_filter() {
    let update = create_message_update("/help me", None);
    assert!(command("/help")(&update));

    let wrong_update = create_message_update("hello /help", None);
    assert!(!command("/help")(&wrong_update));
}

#[test]
fn test_is_start_filter() {
    let update = create_message_update("Начать", Some("{\"command\":\"start\"}"));
    assert!(is_start()(&update));

    let wrong_update = create_message_update("Начать", Some("{\"command\":\"stop\"}"));
    assert!(!is_start()(&wrong_update));
}

#[test]
fn test_is_text_filter() {
    let update = create_message_update("Привет", None);
    assert!(is_text("Привет")(&update));
    assert!(!is_text("Пока")(&update));
}

#[test]
fn command_trims_white_space_and_needs_a_space_after_the_prefix() {
    assert!(command("/help")(&create_message_update("  /help\u{3000}", None)));
    assert!(command("/help")(&create_message_update("\t/help  me", None)));
    assert!(command("/help")(&create_message_update(" \u{a0}/help\u{2028}\n", None)));
    assert!(!command("/help")(&create_message_update("\u{200b}/help", None)));
    assert!(!command("/help")(&create_message_update("/helpme", None)));
    assert!(!command("/help")(&create_message_update("/hel", None)));
    assert!(!command("/help")(&create_callback_update()));
}

#[test]
fn is_start_needs_a_json_object_with_a_string_command() {
    assert!(!is_start()(&create_message_update("x", None)));
    assert!(!is_start()(&create_message_update("x", Some("start"))));
    assert!(!is_start()(&create_message_update("x", Some("{\"command\":1}"))));
    assert!(!is_start()(&create_message_update("x", Some("[\"start\"]"))));
    assert!(is_start()(&create_message_update("x", Some("{\"a\":2,\"command\":\"start\"}"))));
}

#[test]
fn callback_and_any_message_filters() {
    let msg = create_message_update("hi", None);
    let cb = create_callback_update();
    assert!(is_callback()(&cb));
    assert!(!is_callback()(&msg));
    assert!(any_message()(&msg));
    assert!(!any_message()(&cb));
}

#[test]
fn extractors_return_the_carried_object() {
    let msg = create_message_update("/persistent", Some("{\"command\":\"help\"}"));
    assert_eq!(new_message(msg.clone()).unwrap().message.text, "/persistent");
    assert!(new_message(create_callback_update()).is_none());

    assert!(command_message(msg.clone(), "/persistent").is_some());
    assert!(command_message(msg.clone(), "/close").is_none());

    assert!(text_message(msg.clone(), "/persistent").is_some());
    assert!(text_message(msg.clone(), "/persistent ").is_none());

    assert!(payload_command_message(msg.clone(), "help").is_some());
    assert!(payload_command_message(msg.clone(), "start").is_none());

    let ev = callback_event(create_callback_update()).unwrap();
    assert_eq!(ev.event_id, "abc");
    assert_eq!(ev.user_id, 10);
    assert!(callback_event(msg).is_none());
}

#[test]
fn voice_attachment_extracts_the_first_voice_message() {
    let mut msg = new_message(create_message_update("", None)).unwrap();
    assert!(voice_attachment(msg.clone()).is_none());
    msg.message.attachments = vec![
        Attachment::Unknown,
        Attachment::AudioMessage {
            content: AudioMessage {
                id: 456239018,
                owner_id: 123456,
                duration: 5,
                waveform: vec![0, 1, 2, 3, 4],
                link_ogg: "https://example.com/voice.ogg".to_string(),
                link_mp3: "https://example.com/voice.mp3".to_string(),
                access_key: Some("some_secret_key".to_string()),
            },
        },
    ];
    let v = voice_attachment(msg).unwrap();
    assert_eq!(v.id, 456239018);
    assert_eq!(v.waveform, vec![0, 1, 2, 3, 4]);
    assert_eq!(v.access_key.as_deref(), Some("some_secret_key"));
}
