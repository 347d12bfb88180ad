//! The answers a bot can give to a press of a callback button.

use vstd::prelude::*;

verus! {

/// Data representing callback button click response actions (event_data).
#[derive(Debug, Clone, PartialEq, Eq)]
pub enum EventData {
    /// Shows a temporary pop-up notification (snackbar) in the user interface.
    ShowSnackbar {
        /// Text to display in the notification (up to 90 characters).
        text: String,
    },
    /// Opens an external link.
    OpenLink {
        /// URL to open.
        link: String,
    },
    /// Opens a VK Mini App.
    OpenApp {
        /// ID of the Mini App.
        app_id: i64,
        /// Owner ID (group or user ID).
        owner_id: i64,
        /// Hash path for inner app navigation.
        hash: String,
    },
}

impl EventData {
    /// Create a new event response to show a transient pop-up notification.
    pub fn show_snackbar(text: &str) -> (r: Self)
        ensures
            r matches EventData::ShowSnackbar { text: t } && t@ == text@,
    {
        Self::ShowSnackbar { text: String::from_str(text) }
    }

    /// Create a new event response to open a link.
    pub fn open_link(link: &str) -> (r: Self)
        ensures
            r matches EventData::OpenLink { link: l } && l@ == link@,
    {
        Self::OpenLink { link: String::from_str(link) }
    }

    /// Create a new event response to open a VK Mini App.
    pub fn open_app(app_id: i64, owner_id: i64, hash: &str) -> (r: Self)
        ensures
            r matches EventData::OpenApp { app_id: a, owner_id: o, hash: h } && a == app_id
                && o == owner_id && h@ == hash@,
    {
        Self::OpenApp { app_id, owner_id, hash: String::from_str(hash) }
    }
}

} // verus!
