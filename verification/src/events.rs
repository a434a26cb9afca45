//! The gateway events the bot follows: new messages and threads in the forum
//! channel are recorded as posts, and on start-up the threads that are still
//! active are caught up on.
use crate::dates::{instant_before, instant_check_view, parse_rfc3339, rfc3339_instant, Instant};
use crate::errors::{BotError, BotErrorView};
use crate::ids::{decimal, id_text, law_id_text_round_trip, parse_id_spec, IdError};
use crate::records::{Channel, GuildChannel, MessageInfo, NewPost, PostKind, PostView};
use vstd::prelude::*;

verus! {

/// The gateway events that the bot tells apart.
#[derive(Debug, Clone, PartialEq, Eq)]
pub enum BotEvent {
    /// A message was sent.
    Message(MessageInfo),
    /// The bot is connected; its own user id.
    Ready { bot_id: u64 },
    /// A thread was opened.
    ThreadCreate(GuildChannel),
    /// Anything else.
    Other,
}

/// What the bot does about an event.
#[derive(Debug, Clone, PartialEq, Eq)]
pub enum EventRoute {
    /// Look at the message for recording.
    RecordMessage(MessageInfo),
    /// Start catching up on active threads, as the bot with this id.
    StartBackfill(u64),
    /// Look at the thread for recording.
    RecordThread(GuildChannel),
    /// Nothing.
    Ignore,
}

/// Sends each event to the work it calls for.
pub fn route_event(event: BotEvent) -> (r: EventRoute)
    ensures
        match event {
            BotEvent::Message(m) => r == EventRoute::RecordMessage(m),
            BotEvent::Ready { bot_id } => r == EventRoute::StartBackfill(bot_id),
            BotEvent::ThreadCreate(t) => r == EventRoute::RecordThread(t),
            BotEvent::Other => r == EventRoute::Ignore,
        },
{
    match event {
        BotEvent::Message(m) => EventRoute::RecordMessage(m),
        BotEvent::Ready { bot_id } => EventRoute::StartBackfill(bot_id),
        BotEvent::ThreadCreate(t) => EventRoute::RecordThread(t),
        BotEvent::Other => EventRoute::Ignore,
    }
}

/// The record of a message, if it is one to keep: a message of a person, in a
/// channel of a server whose parent is the forum channel.
pub open spec fn message_record(msg: MessageInfo, forum_id: u64, parent: Option<Option<u64>>, date: Seq<char>) -> Option<PostView> {
    if !msg.author_is_bot && parent == Some(Some(forum_id)) {
        Some(PostView {
            post_id: decimal(msg.id as nat),
            user_id: decimal(msg.author_id as nat),
            date,
            kind: PostKind::Message,
            deleted: false,
        })
    } else {
        None
    }
}

/// The parent of a channel, for channels of a server.
pub open spec fn channel_parent(channel: Channel) -> Option<Option<u64>> {
    match channel {
        Channel::Guild(g) => Some(g.parent_id),
        Channel::Other => None,
    }
}

/// The plain view of an optional post.
pub open spec fn post_opt_view(p: Option<NewPost>) -> Option<PostView> {
    match p {
        Some(p) => Some(p@),
        None => None,
    }
}

/// The post to record for a message, given the forum channel's id and the
/// channel the message was sent in.
pub fn message_post(msg: &MessageInfo, forum_id: u64, channel: &Channel, date: String) -> (p: Option<NewPost>)
    ensures
        post_opt_view(p) == message_record(*msg, forum_id, channel_parent(*channel), date@),
{
    if msg.author_is_bot {
        return None;
    }
    match channel {
        Channel::Other => None,
        Channel::Guild(g) => match g.parent_id {
            Some(parent) => if parent == forum_id {
                Some(NewPost {
                    post_id: id_text(msg.id),
                    user_id: id_text(msg.author_id),
                    date,
                    kind: PostKind::Message,
                    deleted: false,
                })
            } else {
                None
            },
            None => None,
        },
    }
}

/// The record of a thread, if it is one to keep: a thread that is not under
/// another channel than the forum channel (a thread with no parent is kept),
/// that has an owner, and that the bot did not open itself.
pub open spec fn thread_record(
    thread_id: u64,
    parent_id: Option<u64>,
    owner_id: Option<u64>,
    forum_id: u64,
    bot_id: u64,
    date: Seq<char>,
) -> Option<PostView> {
    if parent_id matches Some(p) && p != forum_id {
        None
    } else {
        match owner_id {
            None => None,
            Some(owner) => if owner == bot_id {
                None
            } else {
                Some(PostView {
                    post_id: decimal(thread_id as nat),
                    user_id: decimal(owner as nat),
                    date,
                    kind: PostKind::Thread,
                    deleted: false,
                })
            },
        }
    }
}

/// The post to record for a thread, given the forum channel's id and the bot's
/// own user id.
pub fn thread_post(thread: &GuildChannel, forum_id: u64, bot_id: u64, date: String) -> (p: Option<NewPost>)
    ensures
        post_opt_view(p) == thread_record(thread.id, thread.parent_id, thread.owner_id, forum_id, bot_id, date@),
{
    if let Some(parent) = thread.parent_id {
        if parent != forum_id {
            return None;
        }
    }
    let owner = match thread.owner_id {
        Some(id) => id,
        None => return None,
    };
    if owner == bot_id {
        return None;
    }
    Some(NewPost {
        post_id: id_text(thread.id),
        user_id: id_text(owner),
        date,
        kind: PostKind::Thread,
        deleted: false,
    })
}

/// The time from which threads are caught up on: that of the latest recorded
/// post, read as RFC 3339, or now when nothing is recorded.
pub open spec fn cutoff_outcome(latest: Option<Result<(int, int), Seq<char>>>, now: Instant) -> Result<Instant, BotErrorView> {
    match latest {
        None => Ok(now),
        Some(Ok(t)) => Ok(Instant { seconds: t.0 as i64, nanos: t.1 as u32 }),
        Some(Err(m)) => Err(BotErrorView::BadTimestamp(m)),
    }
}

/// The plain view of a cutoff decision.
pub open spec fn cutoff_result_view(r: Result<Instant, BotError>) -> Result<Instant, BotErrorView> {
    match r {
        Ok(t) => Ok(t),
        Err(e) => Err(e@),
    }
}

/// The cutoff, given how the latest post's date read (if there is a post).
pub fn cutoff_from(latest: Option<Result<Instant, String>>, now: Instant) -> (r: Result<Instant, BotError>)
    ensures
        cutoff_result_view(r) == cutoff_outcome(
            match latest { Some(c) => Some(instant_check_view(c)), None => None },
            now,
        ),
{
    match latest {
        None => Ok(now),
        Some(Ok(t)) => Ok(t),
        Some(Err(m)) => Err(BotError::BadTimestamp(m)),
    }
}

/// The cutoff, given the date text of the latest recorded post, read with
/// chrono's RFC 3339 parser.
pub fn backfill_cutoff(latest_date: Option<String>, now: Instant) -> (r: Result<Instant, BotError>)
    ensures
        cutoff_result_view(r) == cutoff_outcome(
            match latest_date { Some(d) => Some(rfc3339_instant(d@)), None => None },
            now,
        ),
{
    match latest_date {
        None => cutoff_from(None, now),
        Some(d) => {
            let parsed = parse_rfc3339(d.as_str());
            cutoff_from(Some(parsed), now)
        },
    }
}

/// What catching up does with one active thread.
#[derive(Debug, Clone, PartialEq, Eq)]
pub struct ThreadStep {
    /// The thread's post to record, if any.
    pub record: Option<NewPost>,
    /// Whether to read the thread's messages.
    pub read_messages: bool,
}

/// Catching up on one thread: threads without metadata are left alone; a thread
/// opened after the cutoff is recorded as a thread would be and its messages
/// read; of the older ones, those archived before the cutoff are skipped and the
/// rest have their messages read.
pub open spec fn backfill_decision(
    thread: GuildChannel,
    forum_id: u64,
    bot_id: u64,
    cutoff: Instant,
    date: Seq<char>,
) -> (Option<PostView>, bool) {
    match thread.thread_metadata {
        None => (None, false),
        Some(m) => if instant_before(cutoff, m.create_timestamp->0) {
            (thread_record(thread.id, thread.parent_id, thread.owner_id, forum_id, bot_id, date), true)
        } else if m.archive_timestamp matches Some(a) && instant_before(a, cutoff) {
            (None, false)
        } else {
            (None, true)
        },
    }
}

/// What to do with one active thread while catching up. Discord gives every
/// thread with metadata a creation time.
pub fn backfill_step(thread: &GuildChannel, forum_id: u64, bot_id: u64, cutoff: Instant, date: String) -> (s: ThreadStep)
    requires
        thread.thread_metadata matches Some(m) ==> m.create_timestamp is Some,
    ensures
        (post_opt_view(s.record), s.read_messages) == backfill_decision(*thread, forum_id, bot_id, cutoff, date@),
{
    match thread.thread_metadata {
        None => ThreadStep { record: None, read_messages: false },
        Some(m) => {
            let created = m.create_timestamp.unwrap();
            if cutoff.is_before(&created) {
                ThreadStep { record: thread_post(thread, forum_id, bot_id, date), read_messages: true }
            } else {
                match m.archive_timestamp {
                    Some(archived) => if archived.is_before(&cutoff) {
                        ThreadStep { record: None, read_messages: false }
                    } else {
                        ThreadStep { record: None, read_messages: true }
                    },
                    None => ThreadStep { record: None, read_messages: true },
                }
            }
        },
    }
}

/// Law: threads the bot opened itself (the threads of anonymous questions among
/// them) are never recorded as threads, neither when they are created nor when
/// the bot catches up on them.
pub proof fn law_bot_threads_not_recorded(thread: GuildChannel, forum_id: u64, bot_id: u64, cutoff: Instant, date: Seq<char>)
    requires
        thread.owner_id == Some(bot_id),
    ensures
        thread_record(thread.id, thread.parent_id, thread.owner_id, forum_id, bot_id, date) is None,
        backfill_decision(thread, forum_id, bot_id, cutoff, date).0 is None,
{
}

/// Law: messages of bots are never recorded, wherever they are sent.
pub proof fn law_bot_messages_not_recorded(msg: MessageInfo, forum_id: u64, channel: Channel, date: Seq<char>)
    requires
        msg.author_is_bot,
    ensures
        message_record(msg, forum_id, channel_parent(channel), date) is None,
{
}

/// Law: catching up records only threads opened after the cutoff, and only those
/// that the thread-creation handler would record.
pub proof fn law_backfill_records_only_new_threads(
    thread: GuildChannel,
    forum_id: u64,
    bot_id: u64,
    cutoff: Instant,
    date: Seq<char>,
)
    ensures
        backfill_decision(thread, forum_id, bot_id, cutoff, date).0 is Some ==> (thread.thread_metadata matches Some(m)
            && instant_before(cutoff, m.create_timestamp->0) && backfill_decision(thread, forum_id, bot_id, cutoff, date).0
            == thread_record(thread.id, thread.parent_id, thread.owner_id, forum_id, bot_id, date)),
{
}

/// Law: a recorded message is a live `MESSAGE` post of the given date whose post
/// id reads back as the message's id and whose user id as its author's; only a
/// person's message in a channel under the forum channel is recorded.
pub proof fn law_message_record_ids(msg: MessageInfo, forum_id: u64, parent: Option<Option<u64>>, date: Seq<char>)
    ensures
        message_record(msg, forum_id, parent, date) matches Some(p) ==> {
            &&& parse_id_spec(p.post_id) == Ok::<nat, IdError>(msg.id as nat)
            &&& parse_id_spec(p.user_id) == Ok::<nat, IdError>(msg.author_id as nat)
            &&& p.kind == PostKind::Message && !p.deleted && p.date == date
            &&& !msg.author_is_bot && parent == Some(Some(forum_id))
        },
        !msg.author_is_bot && parent == Some(Some(forum_id)) ==> message_record(msg, forum_id, parent, date) is Some,
{
    law_id_text_round_trip(msg.id);
    law_id_text_round_trip(msg.author_id);
}

/// Law: a recorded thread is a live `THREAD` post of the given date whose post
/// id reads back as the thread's id and whose user id as its owner's; the owner
/// is not the bot and the thread is under the forum channel or under nothing.
pub proof fn law_thread_record_ids(
    thread_id: u64,
    parent_id: Option<u64>,
    owner_id: Option<u64>,
    forum_id: u64,
    bot_id: u64,
    date: Seq<char>,
)
    ensures
        thread_record(thread_id, parent_id, owner_id, forum_id, bot_id, date) matches Some(p) ==> {
            &&& owner_id is Some && owner_id->0 != bot_id
            &&& parse_id_spec(p.user_id) == Ok::<nat, IdError>(owner_id->0 as nat)
            &&& parse_id_spec(p.post_id) == Ok::<nat, IdError>(thread_id as nat)
            &&& p.kind == PostKind::Thread && !p.deleted && p.date == date
            &&& parent_id is None || parent_id == Some(forum_id)
        },
        ((parent_id is None || parent_id == Some(forum_id)) && owner_id is Some && owner_id->0 != bot_id)
            ==> thread_record(thread_id, parent_id, owner_id, forum_id, bot_id, date) is Some,
{
    law_id_text_round_trip(thread_id);
    if let Some(owner) = owner_id {
        law_id_text_round_trip(owner);
    }
}

/// Law: catching up records every thread opened after the cutoff just as the
/// thread-creation handler would, and reads its messages, whether or not
/// Discord gives it an archive time.
pub proof fn law_backfill_records_new_threads(
    thread: GuildChannel,
    forum_id: u64,
    bot_id: u64,
    cutoff: Instant,
    date: Seq<char>,
)
    requires
        thread.thread_metadata is Some,
        thread.thread_metadata->0.create_timestamp is Some,
        instant_before(cutoff, thread.thread_metadata->0.create_timestamp->0),
    ensures
        backfill_decision(thread, forum_id, bot_id, cutoff, date) == (
            thread_record(thread.id, thread.parent_id, thread.owner_id, forum_id, bot_id, date),
            true,
        ),
{
}

/// Law: of the threads opened at or before the cutoff, none is recorded; those
/// archived before the cutoff are skipped, the others have their messages read.
pub proof fn law_backfill_old_threads(
    thread: GuildChannel,
    forum_id: u64,
    bot_id: u64,
    cutoff: Instant,
    date: Seq<char>,
)
    requires
        thread.thread_metadata is Some,
        thread.thread_metadata->0.create_timestamp is Some,
        !instant_before(cutoff, thread.thread_metadata->0.create_timestamp->0),
    ensures
        backfill_decision(thread, forum_id, bot_id, cutoff, date).0 is None,
        backfill_decision(thread, forum_id, bot_id, cutoff, date).1 == !(thread.thread_metadata->0.archive_timestamp is Some
            && instant_before(thread.thread_metadata->0.archive_timestamp->0, cutoff)),
{
}

} // verus!
