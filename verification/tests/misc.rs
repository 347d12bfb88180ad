use vkoxide::event_data::EventData;
use vkoxide::keyboard::{Action, ButtonColor, Keyboard, KeyboardButton};
use vkoxide::shutdown::ShutdownToken;
use vkoxide::text::{decimal, starts_with, str_eq, trim};
use vkoxide::utils::{get_i64, get_str};
use vkoxide::VkError;

#[test]
fn event_data_constructors() {
    assert_eq!(
        EventData::show_snackbar("Hello World"),
        EventData::ShowSnackbar { text: "Hello World".to_string() }
    );
    assert_eq!(
        EventData::open_link("https://example.com"),
        EventData::OpenLink { link: "https://example.com".to_string() }
    );
    assert_eq!(
        EventData::open_app(1234, -5678, "some_hash"),
        EventData::OpenApp { app_id: 1234, owner_id: -5678, hash: "some_hash".to_string() }
    );
}

#[test]
fn keyboard_rows_keep_their_order() {
    let kb = Keyboard::new(true, false);
    assert!(kb.one_time);
    assert!(!kb.inline);
    assert!(kb.buttons.is_empty());
    let kb = kb
        .add_row(vec![KeyboardButton {
            action: Action::Text { label: "Help".to_string(), payload: Some("{\"command\":\"help\"}".to_string()) },
            color: Some(ButtonColor::Primary),
        }])
        .add_row(vec![]);
    assert_eq!(kb.buttons.len(), 2);
    assert_eq!(kb.buttons[0].len(), 1);
    assert_eq!(kb.buttons[0][0].color, Some(ButtonColor::Primary));
    assert!(kb.buttons[1].is_empty());
    assert!(kb.one_time);
}

#[test]
fn json_list_entries() {
    let v = vec!["12345".to_string(), "\"abc\"".to_string(), "1.5".to_string(), "18446744073709551615".to_string()];
    assert_eq!(get_i64(&v, 0), Some(12345));
    assert_eq!(get_i64(&v, 1), None);
    assert_eq!(get_i64(&v, 2), None);
    assert_eq!(get_i64(&v, 3), None);
    assert_eq!(get_i64(&v, 9), None);
    assert_eq!(get_str(&v, 1), Some("abc".to_string()));
    assert_eq!(get_str(&v, 0), None);
    assert_eq!(get_str(&v, 9), None);
}

#[test]
fn string_helpers() {
    assert_eq!(trim(" \t\u{a0}x y\u{2028}\n"), "x y");
    assert_eq!(trim("\u{3000}"), "");
    assert_eq!(trim("\u{200b}a "), "\u{200b}a");
    assert_eq!(decimal(0), "0");
    assert_eq!(decimal(-42), "-42");
    assert_eq!(decimal(1234567890), "1234567890");
    assert_eq!(decimal(i64::MIN), "-9223372036854775808");
    assert!(str_eq("Привет", "Привет"));
    assert!(!str_eq("Привет", "Пока"));
    assert!(starts_with("/help me", "/help"));
    assert!(!starts_with("/he", "/help"));
}

#[test]
fn shutdown_token_signals_the_receiver() {
    let (tx, mut rx) = tokio::sync::mpsc::unbounded_channel::<()>();
    let token = ShutdownToken::new(tx);
    let other = token.clone();
    assert!(token.shutdown().is_ok());
    assert!(rx.try_recv().is_ok());
    drop(rx);
    assert!(matches!(other.shutdown(), Err(VkError::Send(_))));
}
