//! Transient notifications: what the user is told after a mutation.

use vstd::prelude::*;
use crate::model::text_view;

verus! {

/// Whether a notification reports a success or a failure.
#[derive(Clone, Copy, PartialEq, Eq, Structural, Debug)]
pub enum NoticeLevel {
    Success,
    Error,
}

/// A notification: a title, an optional description and the number of
/// seconds it stays on screen.
#[derive(Clone, Debug, PartialEq, Eq)]
pub struct Notification {
    pub level: NoticeLevel,
    pub title: String,
    pub description: Option<String>,
    pub seconds: u64,
}

/// The value of a [`Notification`].
pub struct NotificationView {
    pub level: NoticeLevel,
    pub title: Seq<char>,
    pub description: Option<Seq<char>>,
    pub seconds: u64,
}

impl View for Notification {
    type V = NotificationView;

    open spec fn view(&self) -> NotificationView {
        NotificationView {
            level: self.level,
            title: self.title@,
            description: text_view(self.description),
            seconds: self.seconds,
        }
    }
}

} // verus!
