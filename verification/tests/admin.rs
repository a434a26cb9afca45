use geoffrey::admin::{
    add_course_decision, add_course_plan, course_added_reply, course_name_pattern, course_names,
    course_removed_reply, forum_channel_id, forum_channel_record, forum_set_reply, remove_course_decision,
    set_forum_plan,
};
use geoffrey::errors::BotError;
use geoffrey::ids::IdError;
use geoffrey::records::{Course, ForumChannel, NewCourse};

fn s(x: &str) -> String {
    x.to_string()
}

#[test]
fn add_course_accepts_valid_dates() {
    let r = add_course_plan(s("CS 110"), s("2023/08/28"), s("2023/12/15"), false);
    assert_eq!(r, Ok(NewCourse { name: s("CS 110"), start: s("2023/08/28"), end: s("2023/12/15") }));
}

#[test]
fn add_course_refuses_existing_name() {
    let r = add_course_plan(s("CS 110"), s("2023/08/28"), s("2023/12/15"), true);
    assert_eq!(r, Err(BotError::CourseExists));
    assert_eq!(r.unwrap_err().message(), "Course already exists");
    // an existing name is refused whatever the dates
    assert_eq!(add_course_plan(s("CS 110"), s("junk"), s("junk"), true), Err(BotError::CourseExists));
}

#[test]
fn add_course_reports_bad_start_date() {
    let r = add_course_plan(s("CS 110"), s("2023-08-28"), s("2023/12/15"), false);
    assert_eq!(r, Err(BotError::InvalidStartDate(s("input contains invalid characters"))));
    assert_eq!(r.unwrap_err().message(), "invalid start date: input contains invalid characters");
}

#[test]
fn add_course_reports_bad_end_date() {
    let r = add_course_plan(s("CS 110"), s("2023/08/28"), s("2023/02/30"), false);
    assert_eq!(r, Err(BotError::InvalidEndDate(s("input is out of range"))));
    let r = add_course_plan(s("CS 110"), s("2023/08/28"), s("2023/12"), false);
    assert_eq!(r.unwrap_err().message(), "invalid end date: premature end of input");
}

#[test]
fn add_course_start_checked_before_end() {
    let r = add_course_plan(s("X"), s("bad"), s("bad"), false);
    assert!(matches!(r, Err(BotError::InvalidStartDate(_))));
}

#[test]
fn add_course_decision_uses_given_checks() {
    let ok = Ok((2023, 8, 28));
    assert_eq!(
        add_course_decision(s("A"), s("x"), s("y"), false, ok.clone(), ok.clone()),
        Ok(NewCourse { name: s("A"), start: s("x"), end: s("y") })
    );
    assert_eq!(
        add_course_decision(s("A"), s("x"), s("y"), false, Err(s("boom")), ok.clone()),
        Err(BotError::InvalidStartDate(s("boom")))
    );
    assert_eq!(
        add_course_decision(s("A"), s("x"), s("y"), false, ok.clone(), Err(s("bang"))),
        Err(BotError::InvalidEndDate(s("bang")))
    );
    assert_eq!(add_course_decision(s("A"), s("x"), s("y"), true, ok.clone(), ok), Err(BotError::CourseExists));
}

#[test]
fn replies() {
    assert_eq!(course_added_reply(), "Course added.");
    assert_eq!(course_removed_reply(), "Course removed");
    assert_eq!(forum_set_reply(), "Forum channel set");
}

#[test]
fn name_pattern() {
    assert_eq!(course_name_pattern(""), None);
    assert_eq!(course_name_pattern("CS"), Some(s("%CS%")));
}

#[test]
fn names_of_found_courses() {
    let cs = vec![
        Course { id: 1, name: s("A"), start: s("1"), end: s("2") },
        Course { id: 2, name: s("B"), start: s("1"), end: s("2") },
    ];
    assert_eq!(course_names(Some(cs)), vec![s("A"), s("B")]);
    assert_eq!(course_names(None), Vec::<String>::new());
}

#[test]
fn remove_course() {
    let c = Course { id: 3, name: s("A"), start: s("1"), end: s("2") };
    assert_eq!(remove_course_decision(Some(c.clone())), Ok(c));
    let e = remove_course_decision(None).unwrap_err();
    assert_eq!(e, BotError::CourseNotFound);
    assert_eq!(e.message(), "Course not found");
}

#[test]
fn set_forum_then_read_back() {
    let row = forum_channel_record(1043348477419200999);
    assert_eq!(row, ForumChannel { id: s("1043348477419200999") });
    assert_eq!(forum_channel_id(Some(row)), Ok(Some(1043348477419200999)));
}

#[test]
fn forum_channel_id_cases() {
    assert_eq!(forum_channel_id(None), Ok(None));
    let e = forum_channel_id(Some(ForumChannel { id: s("abc") })).unwrap_err();
    assert_eq!(e, BotError::BadId(IdError::InvalidDigit));
    assert_eq!(e.message(), "invalid digit found in string");
}

#[test]
fn remove_finds_what_add_stored() {
    let added = add_course_plan(s("BIO 165"), s("2023/09/01"), s("2023/12/20"), false).unwrap();
    let stored = Course { id: 1, name: added.name.clone(), start: added.start.clone(), end: added.end.clone() };
    let removed = remove_course_decision(Some(stored.clone())).unwrap();
    assert_eq!(removed, stored);
    assert_eq!(removed.name, "BIO 165");
}

#[test]
fn set_forum_clears_then_stores() {
    let w = set_forum_plan(42);
    assert!(w.clear);
    assert_eq!(w.row, ForumChannel { id: s("42") });
}
