//! The rows the bot keeps in its database, and the parts of Discord's channels
//! and messages that its decisions read.
use crate::dates::Instant;
use vstd::prelude::*;

verus! {

/// A course as it is about to be stored (the database numbers it).
#[derive(Debug, Clone, PartialEq, Eq)]
pub struct NewCourse {
    pub name: String,
    pub start: String,
    pub end: String,
}

/// A stored course.
#[derive(Debug, Clone, PartialEq, Eq)]
pub struct Course {
    pub id: i32,
    pub name: String,
    pub start: String,
    pub end: String,
}

/// The plain view of a course: its name and its two dates.
pub struct CourseView {
    pub name: Seq<char>,
    pub start: Seq<char>,
    pub end: Seq<char>,
}

impl View for NewCourse {
    type V = CourseView;

    open spec fn view(&self) -> CourseView {
        CourseView { name: self.name@, start: self.start@, end: self.end@ }
    }
}

impl View for Course {
    type V = CourseView;

    open spec fn view(&self) -> CourseView {
        CourseView { name: self.name@, start: self.start@, end: self.end@ }
    }
}

/// A registered Discord user: the decimal user id, full name and NetID.
#[derive(Debug, Clone, PartialEq, Eq)]
pub struct User {
    pub id: String,
    pub name: String,
    pub net_id: String,
}

/// The plain view of a user.
pub struct UserView {
    pub id: Seq<char>,
    pub name: Seq<char>,
    pub net_id: Seq<char>,
}

impl View for User {
    type V = UserView;

    open spec fn view(&self) -> UserView {
        UserView { id: self.id@, name: self.name@, net_id: self.net_id@ }
    }
}

/// The forum channel where anonymous questions go, by its decimal id.
#[derive(Debug, Clone, PartialEq, Eq)]
pub struct ForumChannel {
    pub id: String,
}

/// What a recorded post was.
#[derive(Debug, Clone, Copy, PartialEq, Eq, Structural)]
pub enum PostKind {
    /// A thread opened through the anonymous `ask` command.
    AnonymousThread,
    /// A message in a thread of the forum channel.
    Message,
    /// A thread opened in the forum channel.
    Thread,
}

/// The text under which a kind of post is stored.
pub open spec fn post_kind_text(k: PostKind) -> Seq<char> {
    match k {
        PostKind::AnonymousThread => "ANONYMOUS_THREAD"@,
        PostKind::Message => "MESSAGE"@,
        PostKind::Thread => "THREAD"@,
    }
}

impl PostKind {
    /// The text under which this kind is stored.
    pub fn text(&self) -> (t: &'static str)
        ensures
            t@ == post_kind_text(*self),
    {
        match self {
            PostKind::AnonymousThread => "ANONYMOUS_THREAD",
            PostKind::Message => "MESSAGE",
            PostKind::Thread => "THREAD",
        }
    }
}

/// A post as it is about to be recorded (the database numbers it).
#[derive(Debug, Clone, PartialEq, Eq)]
pub struct NewPost {
    pub post_id: String,
    pub user_id: String,
    pub date: String,
    pub kind: PostKind,
    pub deleted: bool,
}

/// The plain view of a post.
pub struct PostView {
    pub post_id: Seq<char>,
    pub user_id: Seq<char>,
    pub date: Seq<char>,
    pub kind: PostKind,
    pub deleted: bool,
}

impl View for NewPost {
    type V = PostView;

    open spec fn view(&self) -> PostView {
        PostView {
            post_id: self.post_id@,
            user_id: self.user_id@,
            date: self.date@,
            kind: self.kind,
            deleted: self.deleted,
        }
    }
}

/// A tag that a forum channel offers for its threads.
#[derive(Debug, Clone, PartialEq, Eq)]
pub struct ForumTag {
    pub id: u64,
    pub name: String,
}

/// When a thread was opened and when it was archived, where Discord says.
#[derive(Debug, Clone, Copy, PartialEq, Eq, Structural)]
pub struct ThreadMetadata {
    pub create_timestamp: Option<Instant>,
    pub archive_timestamp: Option<Instant>,
}

/// The parts of a channel of a server that the bot reads.
#[derive(Debug, Clone, PartialEq, Eq)]
pub struct GuildChannel {
    pub id: u64,
    pub parent_id: Option<u64>,
    pub owner_id: Option<u64>,
    pub available_tags: Vec<ForumTag>,
    pub thread_metadata: Option<ThreadMetadata>,
}

/// A channel as Discord hands it out: one of a server, or another kind
/// (a private channel or a category).
#[derive(Debug, Clone, PartialEq, Eq)]
pub enum Channel {
    Guild(GuildChannel),
    Other,
}

/// The parts of a message that the bot reads.
#[derive(Debug, Clone, Copy, PartialEq, Eq, Structural)]
pub struct MessageInfo {
    pub id: u64,
    /// The channel the message was sent in.
    pub channel_id: u64,
    pub author_id: u64,
    pub author_is_bot: bool,
}

} // verus!
