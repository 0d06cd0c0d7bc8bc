//! Notification connectors.
//!
//! The compositor-facing protocol machinery reports surrounding-text
//! changes and visibility or content-hint requests.  The connectors turn
//! each report into a notification record for the logging and UI paths,
//! passing every value through unmodified; they hold no state and never
//! fail.

use vstd::prelude::*;

verus! {

/// A surrounding-text change, carried to the notification path exactly as
/// the compositor reported it.
#[derive(Clone, Debug, PartialEq, Eq)]
pub struct ContentNotice {
    /// Text left of the cursor.
    pub left: String,
    /// Text right of the cursor.
    pub right: String,
}

/// Receives surrounding-text changes for the session.
#[derive(Default, Debug, Clone, Copy)]
pub struct ContentConnector {}

impl ContentConnector {
    /// Creates a new ContentConnector.
    pub fn new() -> (r: ContentConnector)
        ensures
            r == (ContentConnector {  }),
    {
        ContentConnector {  }
    }

    /// Forwards a surrounding-text change to the notification path with no
    /// truncation or reordering: the notice carries both strings unmodified.
    pub fn text_changed(&self, string_left_of_cursor: String, string_right_of_cursor: String) -> (n:
        ContentNotice)
        ensures
            n.left@ == string_left_of_cursor@,
            n.right@ == string_right_of_cursor@,
    {
        ContentNotice { left: string_left_of_cursor, right: string_right_of_cursor }
    }
}

/// A visibility or content-hint request for the UI.
#[derive(Clone, Copy, Debug, PartialEq, Eq, Structural)]
pub enum UiNotice {
    /// The compositor asked to show the input method.
    Activate,
    /// The compositor asked to hide the input method.
    Deactivate,
    /// The compositor asked for a content hint and purpose, both carried as
    /// the protocol's raw numeric values.
    HintPurpose { content_hint: u32, content_purpose: u32 },
}

/// Receives visibility and content-hint requests for the UI.
#[derive(Default, Debug, Clone, Copy)]
pub struct UIConnector {}

impl UIConnector {
    /// Creates a new UIConnector.
    pub fn new() -> (r: UIConnector)
        ensures
            r == (UIConnector {  }),
    {
        UIConnector {  }
    }

    /// Notifies the UI that the compositor asked to show the input method.
    pub fn activate_im(&self) -> (n: UiNotice)
        ensures
            n == UiNotice::Activate,
    {
        UiNotice::Activate
    }

    /// Notifies the UI that the compositor asked to hide the input method.
    pub fn deactivate_im(&self) -> (n: UiNotice)
        ensures
            n == UiNotice::Deactivate,
    {
        UiNotice::Deactivate
    }

    /// Forwards a content hint and purpose request to the UI unmodified.
    pub fn set_hint_purpose(&self, content_hint: u32, content_purpose: u32) -> (n: UiNotice)
        ensures
            n == (UiNotice::HintPurpose { content_hint, content_purpose }),
    {
        UiNotice::HintPurpose { content_hint, content_purpose }
    }
}

} // verus!
