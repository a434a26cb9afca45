//! The user commands: registering a name and NetID, and asking who one is.
use crate::ids::{decimal, id_text, law_id_text_round_trip, parse_id_spec, IdError};
use crate::records::{User, UserView};
use vstd::prelude::*;

verus! {

/// How `/users register` writes the user's row.
#[derive(Debug, Clone, PartialEq, Eq)]
pub enum UserWrite {
    /// Change the name and NetID of the stored row with this id.
    Update(User),
    /// Store a new row.
    Insert(User),
}

/// The plain view of a user write.
pub enum UserWriteView {
    Update(UserView),
    Insert(UserView),
}

impl View for UserWrite {
    type V = UserWriteView;

    open spec fn view(&self) -> UserWriteView {
        match self {
            UserWrite::Update(u) => UserWriteView::Update(u@),
            UserWrite::Insert(u) => UserWriteView::Insert(u@),
        }
    }
}

/// The plain view of an optional user row.
pub open spec fn user_opt_view(u: Option<User>) -> Option<UserView> {
    match u {
        Some(u) => Some(u@),
        None => None,
    }
}

/// What registering comes to: the stored row keeps its id and takes the new name
/// and NetID; without one, a new row keyed by the author's decimal id.
pub open spec fn register_write(
    author_id: u64,
    name: Seq<char>,
    net_id: Seq<char>,
    existing: Option<UserView>,
) -> UserWriteView {
    match existing {
        Some(u) => UserWriteView::Update(UserView { id: u.id, name, net_id }),
        None => UserWriteView::Insert(UserView { id: decimal(author_id as nat), name, net_id }),
    }
}

/// The key under which a Discord user's row is stored.
pub fn user_key(author_id: u64) -> (k: String)
    ensures
        k@ == decimal(author_id as nat),
{
    id_text(author_id)
}

/// The write for `/users register`, given the row found under the author's key.
pub fn register_plan(author_id: u64, name: String, net_id: String, existing: Option<User>) -> (w: UserWrite)
    ensures
        w@ == register_write(author_id, name@, net_id@, user_opt_view(existing)),
{
    match existing {
        Some(u) => UserWrite::Update(User { id: u.id, name, net_id }),
        None => UserWrite::Insert(User { id: id_text(author_id), name, net_id }),
    }
}

/// The reply once registration is written.
pub fn registered_reply() -> (t: String)
    ensures
        t@ == "Registration complete."@,
{
    String::from_str("Registration complete.")
}

/// The answer to `/users whoami`.
pub open spec fn whoami_text(existing: Option<UserView>) -> Seq<char> {
    match existing {
        Some(u) => "You are "@ + u.name + " and your NetID is "@ + u.net_id,
        None => "We have never had the pleasure to meet.\n\n(try using /register to make Geoffrey remember you)"@,
    }
}

/// The answer to `/users whoami`, given the row found under the author's key.
pub fn whoami_reply(existing: &Option<User>) -> (t: String)
    ensures
        t@ == whoami_text(user_opt_view(*existing)),
{
    match existing {
        Some(u) => String::from_str("You are ").concat(u.name.as_str()).concat(" and your NetID is ").concat(
            u.net_id.as_str(),
        ),
        None => String::from_str(
            "We have never had the pleasure to meet.\n\n(try using /register to make Geoffrey remember you)",
        ),
    }
}

/// Law: a registration keeps the given name and NetID, and a new row is keyed
/// by a text that reads back as the author's id; an existing row keeps its id.
pub proof fn law_register_keys(author_id: u64, name: Seq<char>, net_id: Seq<char>, existing: Option<UserView>)
    ensures
        match register_write(author_id, name, net_id, existing) {
            UserWriteView::Insert(u) => existing is None && u.name == name && u.net_id == net_id && parse_id_spec(u.id)
                == Ok::<nat, IdError>(author_id as nat),
            UserWriteView::Update(u) => existing matches Some(e) && u.id == e.id && u.name == name && u.net_id == net_id,
        },
{
    law_id_text_round_trip(author_id);
}

} // verus!
