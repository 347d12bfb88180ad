//! Verified core of a VK community bot framework built on the Bots Long Poll API.

pub mod text;
pub mod types;
pub mod json;
pub mod extract;
pub mod filters;
pub mod dispatcher;
pub mod api;
pub mod keyboard;
pub mod event_data;
pub mod utils;
pub mod shutdown;

pub use crate::dispatcher::{PollAction, Poller};
pub use crate::event_data::EventData;
pub use crate::keyboard::{Action, ButtonColor, Keyboard, KeyboardButton};
pub use crate::shutdown::ShutdownToken;
pub use crate::types::{Attachment, AudioMessage, KnownUpdate, Update, UpdateKind, VkError};
