//! A model of the bot's database, table by table, as the commands use it; and the
//! laws that tie the commands together through it: what `register` writes,
//! `whoami` reads back; `remove_course` undoes `add_course`; `set_forum` decides
//! where questions go.
use crate::admin::{add_course_outcome, forum_target, remove_course_outcome, ForumWriteView};
use crate::errors::BotErrorView;
use crate::ids::{decimal, law_id_text_round_trip};
use crate::records::{CourseView, PostView, UserView};
use crate::users::{register_write, whoami_text, UserWriteView};
use vstd::prelude::*;

verus! {

/// The contents of the database: courses by their unique name, users by their
/// id (their names are unique too), the forum channel ids, and the posts in
/// the order they were recorded.
pub struct Store {
    pub courses: Map<Seq<char>, CourseView>,
    pub users: Map<Seq<char>, UserView>,
    pub forums: Set<Seq<char>>,
    pub posts: Seq<PostView>,
}

/// Every row is stored under its own key.
pub open spec fn store_wf(s: Store) -> bool {
    &&& forall|n: Seq<char>| #[trigger] s.courses.contains_key(n) ==> s.courses[n].name == n
    &&& forall|k: Seq<char>| #[trigger] s.users.contains_key(k) ==> s.users[k].id == k
}

/// The course of that name, if stored.
pub open spec fn find_course(s: Store, name: Seq<char>) -> Option<CourseView> {
    if s.courses.contains_key(name) {
        Some(s.courses[name])
    } else {
        None
    }
}

/// Storing a course; refused when its name is taken.
pub open spec fn insert_course(s: Store, c: CourseView) -> Option<Store> {
    if s.courses.contains_key(c.name) {
        None
    } else {
        Some(Store { courses: s.courses.insert(c.name, c), ..s })
    }
}

/// Deleting the course of that name.
pub open spec fn delete_course(s: Store, name: Seq<char>) -> Store {
    Store { courses: s.courses.remove(name), ..s }
}

/// The user stored under that id, if any.
pub open spec fn find_user(s: Store, id: Seq<char>) -> Option<UserView> {
    if s.users.contains_key(id) {
        Some(s.users[id])
    } else {
        None
    }
}

/// Whether a user other than the one with that id has that name.
pub open spec fn name_taken_by_other(s: Store, id: Seq<char>, name: Seq<char>) -> bool {
    exists|k: Seq<char>| #[trigger] s.users.contains_key(k) && k != id && s.users[k].name == name
}

/// Writing a user's row: an insert needs a fresh id, an update an existing one;
/// both are refused when another user has the name.
pub open spec fn write_user(s: Store, w: UserWriteView) -> Option<Store> {
    match w {
        UserWriteView::Insert(u) => if s.users.contains_key(u.id) || name_taken_by_other(s, u.id, u.name) {
            None
        } else {
            Some(Store { users: s.users.insert(u.id, u), ..s })
        },
        UserWriteView::Update(u) => if !s.users.contains_key(u.id) || name_taken_by_other(s, u.id, u.name) {
            None
        } else {
            Some(Store { users: s.users.insert(u.id, u), ..s })
        },
    }
}

/// Some stored forum channel id, if there is one.
pub open spec fn any_forum(s: Store) -> Option<Seq<char>> {
    if s.forums.is_empty() {
        None
    } else {
        Some(s.forums.choose())
    }
}

/// Writing the forum-channel table: clearing it first if the write says so,
/// then storing the row.
pub open spec fn write_forum(s: Store, w: ForumWriteView) -> Store {
    if w.clear {
        Store { forums: set![w.id], ..s }
    } else {
        Store { forums: s.forums.insert(w.id), ..s }
    }
}

/// Law: what `register` writes, `whoami` reads back. The write goes through
/// unless another user already has the name, and then the author is greeted
/// with the new name and NetID.
pub proof fn law_register_then_whoami(s: Store, author_id: u64, name: Seq<char>, net_id: Seq<char>)
    requires
        store_wf(s),
    ensures
        ({
            let key = decimal(author_id as nat);
            let w = register_write(author_id, name, net_id, find_user(s, key));
            &&& write_user(s, w) is Some <==> !name_taken_by_other(s, key, name)
            &&& write_user(s, w) matches Some(t) ==> store_wf(t) && whoami_text(find_user(t, key)) == "You are "@
                + name + " and your NetID is "@ + net_id
        }),
{
    let key = decimal(author_id as nat);
    let w = register_write(author_id, name, net_id, find_user(s, key));
    if let Some(t) = write_user(s, w) {
        assert(t.users.contains_key(key));
        assert(t.users[key] == UserView { id: key, name, net_id });
    }
}

/// Law: a user the database does not know is told so.
pub proof fn law_whoami_stranger(s: Store, author_id: u64)
    requires
        !s.users.contains_key(decimal(author_id as nat)),
    ensures
        whoami_text(find_user(s, decimal(author_id as nat)))
            == "We have never had the pleasure to meet.\n\n(try using /register to make Geoffrey remember you)"@,
{
}

/// Law: a course name is taken at most once: adding a course whose name is
/// stored is refused, whatever its dates.
pub proof fn law_add_course_refuses_taken_name(
    s: Store,
    name: Seq<char>,
    start: Seq<char>,
    end: Seq<char>,
    start_check: Result<(int, int, int), Seq<char>>,
    end_check: Result<(int, int, int), Seq<char>>,
)
    requires
        s.courses.contains_key(name),
    ensures
        add_course_outcome(name, start, end, find_course(s, name) is Some, start_check, end_check)
            == Err::<CourseView, BotErrorView>(BotErrorView::CourseExists),
{
}

/// Law: removing a course undoes adding it. A course added under a fresh name
/// with dates that read is found again by `remove_course`, and deleting it
/// leaves the whole database as it was.
pub proof fn law_remove_undoes_add(
    s: Store,
    name: Seq<char>,
    start: Seq<char>,
    end: Seq<char>,
    start_date: (int, int, int),
    end_date: (int, int, int),
)
    requires
        !s.courses.contains_key(name),
    ensures
        ({
            let added = add_course_outcome(name, start, end, find_course(s, name) is Some, Ok(start_date), Ok(end_date));
            &&& added == Ok::<CourseView, BotErrorView>(CourseView { name, start, end })
            &&& insert_course(s, added->Ok_0) matches Some(t) && (store_wf(s) ==> store_wf(t))
                && remove_course_outcome(find_course(t, name)) == added
                && delete_course(t, name) == s
        }),
{
    let c = CourseView { name, start, end };
    let t = insert_course(s, c)->Some_0;
    assert(delete_course(t, name).courses =~= s.courses);
}

/// Law: a name that no course has cannot be removed.
pub proof fn law_remove_unknown_course(s: Store, name: Seq<char>)
    requires
        !s.courses.contains_key(name),
    ensures
        remove_course_outcome(find_course(s, name)) == Err::<CourseView, BotErrorView>(BotErrorView::CourseNotFound),
{
}

/// Law: after `set_forum` with a channel, the forum-channel table holds exactly
/// that channel's row, the other tables are as they were, and questions and
/// recorded posts go to that channel: the row reads back as its id.
pub proof fn law_set_forum_then_target(s: Store, channel_id: u64)
    ensures
        ({
            let t = write_forum(s, ForumWriteView { clear: true, id: decimal(channel_id as nat) });
            &&& t.forums == set![decimal(channel_id as nat)]
            &&& t.courses == s.courses && t.users == s.users && t.posts == s.posts
            &&& any_forum(t) == Some(decimal(channel_id as nat))
            &&& forum_target(any_forum(t)) == Ok::<Option<u64>, BotErrorView>(Some(channel_id))
        }),
{
    let t = write_forum(s, ForumWriteView { clear: true, id: decimal(channel_id as nat) });
    assert(!t.forums.is_empty()) by {
        assert(t.forums.contains(decimal(channel_id as nat)));
    }
    assert(t.forums.choose() == decimal(channel_id as nat)) by {
        assert(t.forums.contains(t.forums.choose()));
    }
    law_id_text_round_trip(channel_id);
}

/// The database after `set_forum`, however far its writes got: when the delete
/// of the earlier rows fails nothing changes; when the insert after it fails the
/// table is left empty; otherwise the write is whole.
pub open spec fn set_forum_outcome(s: Store, w: ForumWriteView, delete_ok: bool, insert_ok: bool) -> Store {
    if w.clear && !delete_ok {
        s
    } else {
        let cleared = if w.clear { Store { forums: Set::empty(), ..s } } else { s };
        if insert_ok {
            Store { forums: cleared.forums.insert(w.id), ..cleared }
        } else {
            cleared
        }
    }
}

/// Law: `set_forum` keeps the forum-channel table at no more than one row,
/// whichever of its two writes fails; when both go through the table holds
/// exactly the new row.
pub proof fn law_set_forum_keeps_one_row(s: Store, channel_id: u64, delete_ok: bool, insert_ok: bool)
    requires
        s.forums.finite(),
        s.forums.len() <= 1,
    ensures
        ({
            let w = ForumWriteView { clear: true, id: decimal(channel_id as nat) };
            let t = set_forum_outcome(s, w, delete_ok, insert_ok);
            &&& t.forums.finite() && t.forums.len() <= 1
            &&& t.courses == s.courses && t.users == s.users && t.posts == s.posts
            &&& delete_ok && insert_ok ==> t == write_forum(s, w)
        }),
{
    let w = ForumWriteView { clear: true, id: decimal(channel_id as nat) };
    assert(Set::<Seq<char>>::empty().insert(w.id) =~= set![w.id]);
    assert(set![w.id].len() == 1);
}

/// Law: setting the same forum channel twice leaves the database as setting it
/// once does.
pub proof fn law_set_forum_twice(s: Store, channel_id: u64)
    ensures
        ({
            let w = ForumWriteView { clear: true, id: decimal(channel_id as nat) };
            write_forum(write_forum(s, w), w) == write_forum(s, w)
        }),
{
}

} // verus!
