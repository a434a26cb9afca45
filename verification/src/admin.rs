//! The administrator commands: adding and removing courses, completing course
//! names, and choosing the forum channel for anonymous questions.
use crate::dates::{calendar_date, date_check_view, parse_calendar_date};
use crate::errors::{BotError, BotErrorView};
use crate::ids::{decimal, id_text, parse_id, parse_id_spec};
use crate::records::{Course, CourseView, ForumChannel, NewCourse};
use vstd::prelude::*;

verus! {

/// The format in which course dates are given: year, month and day.
pub open spec fn course_date_format() -> Seq<char> {
    "%Y/%m/%d"@
}

/// What adding a course comes to: refused when a course of that name exists,
/// then when the start date does not read, then when the end date does not;
/// otherwise the course with the dates as given.
pub open spec fn add_course_outcome(
    name: Seq<char>,
    start: Seq<char>,
    end: Seq<char>,
    exists: bool,
    start_check: Result<(int, int, int), Seq<char>>,
    end_check: Result<(int, int, int), Seq<char>>,
) -> Result<CourseView, BotErrorView> {
    if exists {
        Err(BotErrorView::CourseExists)
    } else if let Err(m) = start_check {
        Err(BotErrorView::InvalidStartDate(m))
    } else if let Err(m) = end_check {
        Err(BotErrorView::InvalidEndDate(m))
    } else {
        Ok(CourseView { name, start, end })
    }
}

/// The plain view of a course decision.
pub open spec fn new_course_result_view(r: Result<NewCourse, BotError>) -> Result<CourseView, BotErrorView> {
    match r {
        Ok(c) => Ok(c@),
        Err(e) => Err(e@),
    }
}

/// Decides a new course from whether its name is taken and how its two dates read.
pub fn add_course_decision(
    name: String,
    start: String,
    end: String,
    exists: bool,
    start_check: Result<(i32, u32, u32), String>,
    end_check: Result<(i32, u32, u32), String>,
) -> (r: Result<NewCourse, BotError>)
    ensures
        new_course_result_view(r) == add_course_outcome(
            name@,
            start@,
            end@,
            exists,
            date_check_view(start_check),
            date_check_view(end_check),
        ),
{
    if exists {
        return Err(BotError::CourseExists);
    }
    match start_check {
        Err(m) => Err(BotError::InvalidStartDate(m)),
        Ok(_) => match end_check {
            Err(m) => Err(BotError::InvalidEndDate(m)),
            Ok(_) => Ok(NewCourse { name, start, end }),
        },
    }
}

/// The course to insert for `/admin add_course`, given whether a course of that
/// name is already stored; both dates are read with chrono in the format
/// `%Y/%m/%d`.
pub fn add_course_plan(name: String, start: String, end: String, exists: bool) -> (r: Result<NewCourse, BotError>)
    ensures
        new_course_result_view(r) == add_course_outcome(
            name@,
            start@,
            end@,
            exists,
            calendar_date(start@, course_date_format()),
            calendar_date(end@, course_date_format()),
        ),
{
    let start_check = parse_calendar_date(start.as_str(), "%Y/%m/%d");
    let end_check = parse_calendar_date(end.as_str(), "%Y/%m/%d");
    add_course_decision(name, start, end, exists, start_check, end_check)
}

/// The reply once a course is added.
pub fn course_added_reply() -> (t: String)
    ensures
        t@ == "Course added."@,
{
    String::from_str("Course added.")
}

/// The name filter for completing course names: none for an empty prefix,
/// otherwise the SQL `LIKE` pattern `%partial%`.
pub fn course_name_pattern(partial: &str) -> (r: Option<String>)
    ensures
        partial@.len() == 0 ==> r is None,
        partial@.len() > 0 ==> (r matches Some(p) && p@ == seq!['%'] + partial@ + seq!['%']),
{
    if partial.unicode_len() == 0 {
        None
    } else {
        proof { reveal_strlit("%"); }
        Some(String::from_str("%").concat(partial).concat("%"))
    }
}

/// The completions offered: the names of the courses found, in order; none when
/// the lookup failed.
pub fn course_names(found: Option<Vec<Course>>) -> (names: Vec<String>)
    ensures
        found is None ==> names@.len() == 0,
        found matches Some(cs) ==> (names@.len() == cs@.len() && forall|i: int|
            0 <= i < cs@.len() ==> #[trigger] names@[i]@ == cs@[i].name@),
{
    let mut names: Vec<String> = Vec::new();
    match found {
        None => names,
        Some(cs) => {
            let mut i: usize = 0;
            while i < cs.len()
                invariant
                    i <= cs@.len(),
                    names@.len() == i,
                    forall|j: int| 0 <= j < i ==> #[trigger] names@[j]@ == cs@[j].name@,
                decreases cs@.len() - i,
            {
                names.push(cs[i].name.clone());
                i = i + 1;
            }
            names
        },
    }
}

/// What removing a course comes to: the course found by that name, or refusal.
pub open spec fn remove_course_outcome(found: Option<CourseView>) -> Result<CourseView, BotErrorView> {
    match found {
        Some(c) => Ok(c),
        None => Err(BotErrorView::CourseNotFound),
    }
}

/// The course to delete for `/admin remove_course`, given the lookup by name.
pub fn remove_course_decision(found: Option<Course>) -> (r: Result<Course, BotError>)
    ensures
        match r {
            Ok(c) => remove_course_outcome(match found { Some(f) => Some(f@), None => None }) == Ok::<CourseView, BotErrorView>(c@)
                && found == Some(c),
            Err(e) => remove_course_outcome(match found { Some(f) => Some(f@), None => None }) == Err::<CourseView, BotErrorView>(e@),
        },
{
    match found {
        Some(c) => Ok(c),
        None => Err(BotError::CourseNotFound),
    }
}

/// The reply once a course is removed.
pub fn course_removed_reply() -> (t: String)
    ensures
        t@ == "Course removed"@,
{
    String::from_str("Course removed")
}

/// The one row the forum-channel table holds after `/admin set_forum`.
pub fn forum_channel_record(channel_id: u64) -> (f: ForumChannel)
    ensures
        f.id@ == decimal(channel_id as nat),
{
    ForumChannel { id: id_text(channel_id) }
}

/// How `/admin set_forum` writes the forum-channel table.
#[derive(Debug, Clone, PartialEq, Eq)]
pub struct ForumWrite {
    /// Whether every row stored before is deleted first.
    pub clear: bool,
    /// The row stored.
    pub row: ForumChannel,
}

/// The plain view of a forum write: whether the table is cleared, and the id stored.
pub struct ForumWriteView {
    pub clear: bool,
    pub id: Seq<char>,
}

impl View for ForumWrite {
    type V = ForumWriteView;

    open spec fn view(&self) -> ForumWriteView {
        ForumWriteView { clear: self.clear, id: self.row.id@ }
    }
}

/// The write for `/admin set_forum`: every earlier row deleted, then the
/// channel's row stored, so that the table holds exactly that row.
pub fn set_forum_plan(channel_id: u64) -> (w: ForumWrite)
    ensures
        w@ == (ForumWriteView { clear: true, id: decimal(channel_id as nat) }),
{
    ForumWrite { clear: true, row: forum_channel_record(channel_id) }
}

/// The reply once the forum channel is set.
pub fn forum_set_reply() -> (t: String)
    ensures
        t@ == "Forum channel set"@,
{
    String::from_str("Forum channel set")
}

/// Where questions and recorded posts belong, given the stored forum channel:
/// nowhere when none is set; a failure when its id does not read.
pub open spec fn forum_target(found: Option<Seq<char>>) -> Result<Option<u64>, BotErrorView> {
    match found {
        None => Ok(None),
        Some(t) => match parse_id_spec(t) {
            Ok(v) => Ok(Some(v as u64)),
            Err(e) => Err(BotErrorView::BadId(e)),
        },
    }
}

/// The forum channel's id, read from the stored row.
pub fn forum_channel_id(found: Option<ForumChannel>) -> (r: Result<Option<u64>, BotError>)
    ensures
        match r {
            Ok(v) => forum_target(match found { Some(f) => Some(f.id@), None => None }) == Ok::<Option<u64>, BotErrorView>(v),
            Err(e) => forum_target(match found { Some(f) => Some(f.id@), None => None }) == Err::<Option<u64>, BotErrorView>(e@),
        },
{
    match found {
        None => Ok(None),
        Some(f) => match parse_id(f.id.as_str()) {
            Ok(v) => Ok(Some(v)),
            Err(e) => Err(BotError::BadId(e)),
        },
    }
}

/// Law: a course is added exactly when its name is free and both dates read,
/// and then with the name and dates as given; a taken name is refused first,
/// then a start date that does not read, then an end date, each with the
/// parser's message.
pub proof fn law_add_course_outcome(
    name: Seq<char>,
    start: Seq<char>,
    end: Seq<char>,
    exists: bool,
    start_check: Result<(int, int, int), Seq<char>>,
    end_check: Result<(int, int, int), Seq<char>>,
)
    ensures
        ({
            let r = add_course_outcome(name, start, end, exists, start_check, end_check);
            &&& r is Ok <==> (!exists && start_check is Ok && end_check is Ok)
            &&& r matches Ok(c) ==> c.name == name && c.start == start && c.end == end
            &&& exists ==> r == Err::<CourseView, BotErrorView>(BotErrorView::CourseExists)
            &&& !exists && start_check is Err ==> r == Err::<CourseView, BotErrorView>(
                BotErrorView::InvalidStartDate(start_check->Err_0),
            )
            &&& !exists && start_check is Ok && end_check is Err ==> r == Err::<CourseView, BotErrorView>(
                BotErrorView::InvalidEndDate(end_check->Err_0),
            )
        }),
{
}

/// Law: a forum channel id that the stored text does not read as stops the
/// work with that read's error; an unset forum channel stops it quietly.
pub proof fn law_forum_target(found: Option<Seq<char>>)
    ensures
        found is None ==> forum_target(found) == Ok::<Option<u64>, BotErrorView>(None),
        found matches Some(t) ==> match parse_id_spec(t) {
            Ok(v) => forum_target(found) == Ok::<Option<u64>, BotErrorView>(Some(v as u64)) && v <= u64::MAX,
            Err(e) => forum_target(found) == Err::<Option<u64>, BotErrorView>(BotErrorView::BadId(e)),
        },
{
    if let Some(t) = found {
        crate::ids::law_parse_id_accepts_only_digits(t);
    }
}

} // verus!
