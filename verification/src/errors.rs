//! The failures that the bot's commands and event handlers report.
use crate::ids::{id_error_text, IdError};
use vstd::prelude::*;

verus! {

/// A failed command or event: what the bot reports instead of finishing.
#[derive(Debug, Clone, PartialEq, Eq)]
pub enum BotError {
    /// A course of that name is already known.
    CourseExists,
    /// The start date of a new course does not read; the parser's message.
    InvalidStartDate(String),
    /// The end date of a new course does not read; the parser's message.
    InvalidEndDate(String),
    /// No course of that name is known.
    CourseNotFound,
    /// A stored channel identifier does not read as a number.
    BadId(IdError),
    /// A stored post date does not read as an RFC 3339 time; the parser's message.
    BadTimestamp(String),
}

/// The plain view of a `BotError`.
pub enum BotErrorView {
    CourseExists,
    InvalidStartDate(Seq<char>),
    InvalidEndDate(Seq<char>),
    CourseNotFound,
    BadId(IdError),
    BadTimestamp(Seq<char>),
}

impl View for BotError {
    type V = BotErrorView;

    open spec fn view(&self) -> BotErrorView {
        match self {
            BotError::CourseExists => BotErrorView::CourseExists,
            BotError::InvalidStartDate(m) => BotErrorView::InvalidStartDate(m@),
            BotError::InvalidEndDate(m) => BotErrorView::InvalidEndDate(m@),
            BotError::CourseNotFound => BotErrorView::CourseNotFound,
            BotError::BadId(e) => BotErrorView::BadId(*e),
            BotError::BadTimestamp(m) => BotErrorView::BadTimestamp(m@),
        }
    }
}

/// The text the bot shows for each failure.
pub open spec fn bot_error_text(e: BotErrorView) -> Seq<char> {
    match e {
        BotErrorView::CourseExists => "Course already exists"@,
        BotErrorView::InvalidStartDate(m) => "invalid start date: "@ + m,
        BotErrorView::InvalidEndDate(m) => "invalid end date: "@ + m,
        BotErrorView::CourseNotFound => "Course not found"@,
        BotErrorView::BadId(e) => id_error_text(e),
        BotErrorView::BadTimestamp(m) => m,
    }
}

impl BotError {
    /// The text shown for this failure.
    pub fn message(&self) -> (m: String)
        ensures
            m@ == bot_error_text(self@),
    {
        match self {
            BotError::CourseExists => String::from_str("Course already exists"),
            BotError::InvalidStartDate(m) => String::from_str("invalid start date: ").concat(m.as_str()),
            BotError::InvalidEndDate(m) => String::from_str("invalid end date: ").concat(m.as_str()),
            BotError::CourseNotFound => String::from_str("Course not found"),
            BotError::BadId(e) => e.message(),
            BotError::BadTimestamp(m) => m.clone(),
        }
    }
}

} // verus!
