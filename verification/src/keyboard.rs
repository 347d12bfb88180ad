//! Bot keyboards: rows of buttons shown under the input field or inline.

use vstd::prelude::*;

verus! {

/// A keyboard: whether it hides after one use, whether it is attached to a
/// message, and its rows of buttons, top to bottom.
#[derive(Debug, Clone)]
pub struct Keyboard {
    pub one_time: bool,
    pub inline: bool,
    pub buttons: Vec<Vec<KeyboardButton>>,
}

/// A button: what it does and, optionally, its color.
#[derive(Debug, Clone)]
pub struct KeyboardButton {
    pub action: Action,
    pub color: Option<ButtonColor>,
}

/// What a button does when pressed.
#[derive(Debug, Clone)]
pub enum Action {
    /// Sends `label` as a message, with an optional JSON payload.
    Text { label: String, payload: Option<String> },
    /// Sends a callback event, with an optional JSON payload.
    Callback { label: String, payload: Option<String> },
    /// Opens `link`.
    OpenLink { link: String, label: String },
}

/// The color of a button.
#[derive(Debug, Clone, Copy, PartialEq, Eq, Structural)]
pub enum ButtonColor {
    Primary,
    Secondary,
    Negative,
    Positive,
}

impl Keyboard {
    /// A keyboard without buttons.
    pub fn new(one_time: bool, inline: bool) -> (k: Self)
        ensures
            k.one_time == one_time,
            k.inline == inline,
            k.buttons@.len() == 0,
    {
        Self { one_time, inline, buttons: Vec::new() }
    }

    /// This keyboard with `row` added below its rows.
    pub fn add_row(self, row: Vec<KeyboardButton>) -> (k: Self)
        ensures
            k.one_time == self.one_time,
            k.inline == self.inline,
            k.buttons@ == self.buttons@.push(row),
    {
        let mut k = self;
        k.buttons.push(row);
        k
    }
}

} // verus!
