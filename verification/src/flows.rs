//! The order of the work each command and event handler does. A handler is a
//! state machine: from its state and what the last piece of outside work came
//! to (an event), it decides its next state and the next piece of work (an
//! action). The bot performs the action and hands back the event, until the
//! handler finishes.
use crate::admin::{forum_channel_id, forum_target};
use crate::dates::{rfc3339_instant, Instant};
use crate::errors::{BotError, BotErrorView};
use crate::events::{
    backfill_cutoff, backfill_decision, backfill_step, channel_parent, cutoff_outcome, message_post,
    message_record, thread_post, thread_record,
};
use crate::questions::{
    anonymous_post, applied_tag_ids, ask_plan, chosen_tag_names, forum_tags_view, no_forum_reply,
    question_posted_reply, wrong_channel_reply, AskPlan, Tag, ThreadKind, ThreadRequest,
};
use crate::ids::decimal;
use crate::records::{Channel, ForumChannel, GuildChannel, MessageInfo, NewPost, PostKind, PostView};
use vstd::prelude::*;

verus! {

/// A reading of the clock: as RFC 3339 text (the form posts are dated in) and
/// as an instant.
#[derive(Debug, Clone, PartialEq, Eq)]
pub struct Clock {
    pub text: String,
    pub instant: Instant,
}

/// A piece of outside work a handler asks for.
#[derive(Debug, PartialEq, Eq)]
pub enum Action {
    /// Look up the stored forum channel row.
    LoadForum,
    /// Fetch the channel with this id from Discord.
    FetchChannel(u64),
    /// Open this thread in the fetched channel.
    OpenThread(ThreadRequest),
    /// Store this post.
    Record(NewPost),
    /// Answer the user with this text.
    Reply(String),
    /// Look up the post with the greatest date.
    LoadLatestPost,
    /// Fetch the server's active threads.
    FetchActiveThreads,
    /// Read the messages of the thread with this id.
    ReadMessages(u64),
    /// Stop, with this outcome.
    Finish(Result<(), BotError>),
}

/// What a piece of outside work came to.
#[derive(Debug, Clone, PartialEq, Eq)]
pub enum FlowEvent {
    /// The handler is starting.
    Started,
    /// The stored forum channel row, if any.
    ForumLoaded(Option<ForumChannel>),
    /// The fetched channel.
    ChannelFetched(Channel),
    /// The id of the opened thread.
    ThreadOpened(u64),
    /// The date text of the latest post, if any.
    LatestPostLoaded(Option<String>),
    /// The server's active threads.
    ThreadsFetched(Vec<GuildChannel>),
    /// The work was done and has nothing to report.
    Done,
}

/// The id text of the stored forum channel row, if any.
pub open spec fn forum_row_view(f: Option<ForumChannel>) -> Option<Seq<char>> {
    match f {
        Some(f) => Some(f.id@),
        None => None,
    }
}

/// Whether `a` stops the handler with the failure `e`.
pub open spec fn finishes_with(a: Action, e: BotErrorView) -> bool {
    a matches Action::Finish(Err(x)) && x@ == e
}

/// Whether `a` records a post whose view is `p`.
pub open spec fn records(a: Action, p: PostView) -> bool {
    a matches Action::Record(q) && q@ == p
}

/// Whether `a` answers with the text `t`.
pub open spec fn replies(a: Action, t: Seq<char>) -> bool {
    a matches Action::Reply(r) && r@ == t
}

// ---------------------------------------------------------------- messages

/// Where the handling of a new message stands.
#[derive(Debug, Clone, PartialEq, Eq)]
pub enum MessageState {
    Start(MessageInfo),
    WaitForum(MessageInfo),
    WaitChannel(MessageInfo, u64),
    WaitRecord,
    Finished,
}

/// The next step of handling a new message: a bot's message stops at once,
/// before any lookup; then the forum channel is looked up (none set: stop; an
/// id that does not read: fail), then the message's channel is fetched, and the
/// message is recorded if it belongs in the forum.
pub fn message_step(state: MessageState, event: FlowEvent, now: &Clock) -> (r: (MessageState, Action))
    ensures
        match (state, event) {
            (MessageState::Start(m), FlowEvent::Started) => if m.author_is_bot {
                r.0 == MessageState::Finished && r.1 == Action::Finish(Ok(()))
            } else {
                r.0 == MessageState::WaitForum(m) && r.1 == Action::LoadForum
            },
            (MessageState::WaitForum(m), FlowEvent::ForumLoaded(f)) => match forum_target(forum_row_view(f)) {
                Err(e) => r.0 == MessageState::Finished && finishes_with(r.1, e),
                Ok(None) => r.0 == MessageState::Finished && r.1 == Action::Finish(Ok(())),
                Ok(Some(id)) => r.0 == MessageState::WaitChannel(m, id) && r.1 == Action::FetchChannel(m.channel_id),
            },
            (MessageState::WaitChannel(m, forum_id), FlowEvent::ChannelFetched(ch)) => match message_record(
                m,
                forum_id,
                channel_parent(ch),
                now.text@,
            ) {
                Some(p) => r.0 == MessageState::WaitRecord && records(r.1, p),
                None => r.0 == MessageState::Finished && r.1 == Action::Finish(Ok(())),
            },
            _ => r.0 == MessageState::Finished && r.1 == Action::Finish(Ok(())),
        },
{
    match (state, event) {
        (MessageState::Start(m), FlowEvent::Started) => if m.author_is_bot {
            (MessageState::Finished, Action::Finish(Ok(())))
        } else {
            (MessageState::WaitForum(m), Action::LoadForum)
        },
        (MessageState::WaitForum(m), FlowEvent::ForumLoaded(f)) => match forum_channel_id(f) {
            Err(e) => (MessageState::Finished, Action::Finish(Err(e))),
            Ok(None) => (MessageState::Finished, Action::Finish(Ok(()))),
            Ok(Some(id)) => (MessageState::WaitChannel(m, id), Action::FetchChannel(m.channel_id)),
        },
        (MessageState::WaitChannel(m, forum_id), FlowEvent::ChannelFetched(ch)) => match message_post(
            &m,
            forum_id,
            &ch,
            now.text.clone(),
        ) {
            Some(p) => (MessageState::WaitRecord, Action::Record(p)),
            None => (MessageState::Finished, Action::Finish(Ok(()))),
        },
        _ => (MessageState::Finished, Action::Finish(Ok(()))),
    }
}

// ---------------------------------------------------------------- threads

/// Where the handling of a new thread stands.
#[derive(Debug, Clone, PartialEq, Eq)]
pub enum ThreadState {
    Start { thread: GuildChannel, bot_id: u64 },
    WaitForum { thread: GuildChannel, bot_id: u64 },
    WaitRecord,
    Finished,
}

/// The next step of handling a new thread: the forum channel is looked up
/// (none set: stop; an id that does not read: fail), and the thread is recorded
/// if it belongs in the forum and was not opened by the bot.
pub fn thread_step(state: ThreadState, event: FlowEvent, now: &Clock) -> (r: (ThreadState, Action))
    ensures
        match (state, event) {
            (ThreadState::Start { thread, bot_id }, FlowEvent::Started) => r.0 == (ThreadState::WaitForum {
                thread,
                bot_id,
            }) && r.1 == Action::LoadForum,
            (ThreadState::WaitForum { thread, bot_id }, FlowEvent::ForumLoaded(f)) => match forum_target(
                forum_row_view(f),
            ) {
                Err(e) => r.0 == ThreadState::Finished && finishes_with(r.1, e),
                Ok(None) => r.0 == ThreadState::Finished && r.1 == Action::Finish(Ok(())),
                Ok(Some(id)) => match thread_record(thread.id, thread.parent_id, thread.owner_id, id, bot_id, now.text@) {
                    Some(p) => r.0 == ThreadState::WaitRecord && records(r.1, p),
                    None => r.0 == ThreadState::Finished && r.1 == Action::Finish(Ok(())),
                },
            },
            _ => r.0 == ThreadState::Finished && r.1 == Action::Finish(Ok(())),
        },
{
    match (state, event) {
        (ThreadState::Start { thread, bot_id }, FlowEvent::Started) => (
            ThreadState::WaitForum { thread, bot_id },
            Action::LoadForum,
        ),
        (ThreadState::WaitForum { thread, bot_id }, FlowEvent::ForumLoaded(f)) => match forum_channel_id(f) {
            Err(e) => (ThreadState::Finished, Action::Finish(Err(e))),
            Ok(None) => (ThreadState::Finished, Action::Finish(Ok(()))),
            Ok(Some(id)) => match thread_post(&thread, id, bot_id, now.text.clone()) {
                Some(p) => (ThreadState::WaitRecord, Action::Record(p)),
                None => (ThreadState::Finished, Action::Finish(Ok(()))),
            },
        },
        _ => (ThreadState::Finished, Action::Finish(Ok(()))),
    }
}

// ---------------------------------------------------------------- questions

/// What the asker gave to `/ask`, and who the asker is.
#[derive(Debug, Clone, PartialEq, Eq)]
pub struct AskInput {
    pub title: String,
    pub message: String,
    pub tag1: Tag,
    pub tag2: Option<Tag>,
    pub tag3: Option<Tag>,
    pub author_id: u64,
}

/// Where the handling of `/ask` stands.
#[derive(Debug, Clone, PartialEq, Eq)]
pub enum AskState {
    Start(AskInput),
    WaitForum(AskInput),
    WaitChannel(AskInput),
    WaitThread(u64),
    WaitRecord(u64),
    Replying,
    Finished,
}

/// The next step of `/ask`: the forum channel is looked up (none set: say so
/// and stop, without fetching any channel; an id that does not read: fail),
/// then fetched (not a channel of a server: say so and stop), then a public
/// thread is opened with the question and the chosen tags, then recorded as an
/// anonymous thread of the asker, and finally the asker is sent its link.
pub fn ask_step(state: AskState, event: FlowEvent, now: &Clock) -> (r: (AskState, Action))
    ensures
        match (state, event) {
            (AskState::Start(i), FlowEvent::Started) => r.0 == AskState::WaitForum(i) && r.1 == Action::LoadForum,
            (AskState::WaitForum(i), FlowEvent::ForumLoaded(f)) => match forum_target(forum_row_view(f)) {
                Err(e) => r.0 == AskState::Finished && finishes_with(r.1, e),
                Ok(None) => r.0 == AskState::Replying && replies(
                    r.1,
                    "I don't know where to ask that question. Please ask your professor to set the forum channel."@,
                ),
                Ok(Some(id)) => r.0 == AskState::WaitChannel(i) && r.1 == Action::FetchChannel(id),
            },
            (AskState::WaitChannel(i), FlowEvent::ChannelFetched(ch)) => match ch {
                Channel::Other => r.0 == AskState::Replying && replies(r.1, "Invalid channel type configured"@),
                Channel::Guild(g) => r.0 == AskState::WaitThread(i.author_id) && (r.1 matches Action::OpenThread(req)
                    && req.kind == ThreadKind::Public && req.title@ == i.title@ && req.content@ == i.message@
                    && req.tag_ids@ == applied_tag_ids(
                    forum_tags_view(g.available_tags@),
                    chosen_tag_names(i.tag1, i.tag2, i.tag3),
                )),
            },
            (AskState::WaitThread(author), FlowEvent::ThreadOpened(thread_id)) => r.0 == AskState::WaitRecord(thread_id)
                && records(
                r.1,
                PostView {
                    post_id: decimal(thread_id as nat),
                    user_id: decimal(author as nat),
                    date: now.text@,
                    kind: PostKind::AnonymousThread,
                    deleted: false,
                },
            ),
            (AskState::WaitRecord(thread_id), FlowEvent::Done) => r.0 == AskState::Replying && replies(
                r.1,
                "Your question has been posted. Be sure to follow this thread to see the answer: <#"@ + decimal(
                    thread_id as nat,
                ) + "> "@,
            ),
            _ => r.0 == AskState::Finished && r.1 == Action::Finish(Ok(())),
        },
{
    match (state, event) {
        (AskState::Start(i), FlowEvent::Started) => (AskState::WaitForum(i), Action::LoadForum),
        (AskState::WaitForum(i), FlowEvent::ForumLoaded(f)) => match forum_channel_id(f) {
            Err(e) => (AskState::Finished, Action::Finish(Err(e))),
            Ok(None) => (AskState::Replying, Action::Reply(no_forum_reply())),
            Ok(Some(id)) => (AskState::WaitChannel(i), Action::FetchChannel(id)),
        },
        (AskState::WaitChannel(i), FlowEvent::ChannelFetched(ch)) => {
            let author = i.author_id;
            match ask_plan(&ch, i.title, i.message, i.tag1, i.tag2, i.tag3) {
                AskPlan::WrongChannel => (AskState::Replying, Action::Reply(wrong_channel_reply())),
                AskPlan::Open(req) => (AskState::WaitThread(author), Action::OpenThread(req)),
            }
        },
        (AskState::WaitThread(author), FlowEvent::ThreadOpened(thread_id)) => (
            AskState::WaitRecord(thread_id),
            Action::Record(anonymous_post(thread_id, author, now.text.clone())),
        ),
        (AskState::WaitRecord(thread_id), FlowEvent::Done) => (
            AskState::Replying,
            Action::Reply(question_posted_reply(thread_id)),
        ),
        _ => (AskState::Finished, Action::Finish(Ok(()))),
    }
}

// ---------------------------------------------------------------- catching up

/// Where catching up on active threads stands.
#[derive(Debug, Clone, PartialEq, Eq)]
pub enum BackfillState {
    Start(u64),
    WaitForum(u64),
    WaitLatest { bot_id: u64, forum_id: u64 },
    WaitThreads { bot_id: u64, forum_id: u64, cutoff: Instant },
    /// The post of thread `index` was asked to be stored; `read` says whether
    /// its messages are to be read next.
    AfterRecord { bot_id: u64, forum_id: u64, cutoff: Instant, threads: Vec<GuildChannel>, index: usize, read: bool },
    /// The messages of thread `index` were asked to be read.
    AfterRead { bot_id: u64, forum_id: u64, cutoff: Instant, threads: Vec<GuildChannel>, index: usize },
    Finished,
}

/// Whether Discord gave a thread with metadata its creation time.
pub open spec fn thread_dated(t: GuildChannel) -> bool {
    t.thread_metadata matches Some(m) ==> m.create_timestamp is Some
}

/// Whether every thread of the list is dated.
pub open spec fn threads_dated(ts: Seq<GuildChannel>) -> bool {
    forall|k: int| 0 <= k < ts.len() ==> thread_dated(#[trigger] ts[k])
}

/// Whether a state of catching up points into its list of dated threads.
pub open spec fn backfill_state_ok(s: BackfillState) -> bool {
    match s {
        BackfillState::AfterRecord { threads, index, .. } => threads_dated(threads@) && index < threads@.len(),
        BackfillState::AfterRead { threads, index, .. } => threads_dated(threads@) && index < threads@.len(),
        _ => true,
    }
}

/// Whether catching up does nothing with a thread.
pub open spec fn thread_left_alone(t: GuildChannel, forum_id: u64, bot_id: u64, cutoff: Instant, date: Seq<char>) -> bool {
    backfill_decision(t, forum_id, bot_id, cutoff, date) == (None::<PostView>, false)
}

/// Going on from thread `from`: the threads left alone are passed over, and
/// the first one with work yields that work, its post to record first, else its
/// messages to read; past the last thread, catching up is done.
pub open spec fn walk_result(
    bot_id: u64,
    forum_id: u64,
    cutoff: Instant,
    threads: Vec<GuildChannel>,
    from: int,
    date: Seq<char>,
    r: (BackfillState, Action),
) -> bool {
    match r.0 {
        BackfillState::Finished => r.1 == Action::Finish(Ok(())) && forall|j: int|
            from <= j < threads@.len() ==> thread_left_alone(#[trigger] threads@[j], forum_id, bot_id, cutoff, date),
        BackfillState::AfterRecord { bot_id: b, forum_id: f, cutoff: c, threads: ts, index: k, read } => {
            &&& b == bot_id && f == forum_id && c == cutoff && ts == threads
            &&& from <= k < threads@.len()
            &&& forall|j: int| from <= j < k ==> thread_left_alone(#[trigger] threads@[j], forum_id, bot_id, cutoff, date)
            &&& r.1 matches Action::Record(p) && backfill_decision(threads@[k as int], forum_id, bot_id, cutoff, date)
                == (Some(p@), read)
        },
        BackfillState::AfterRead { bot_id: b, forum_id: f, cutoff: c, threads: ts, index: k } => {
            &&& b == bot_id && f == forum_id && c == cutoff && ts == threads
            &&& from <= k < threads@.len()
            &&& forall|j: int| from <= j < k ==> thread_left_alone(#[trigger] threads@[j], forum_id, bot_id, cutoff, date)
            &&& backfill_decision(threads@[k as int], forum_id, bot_id, cutoff, date) == (None::<PostView>, true)
            &&& r.1 == Action::ReadMessages(threads@[k as int].id)
        },
        _ => false,
    }
}

fn backfill_walk(
    bot_id: u64,
    forum_id: u64,
    cutoff: Instant,
    threads: Vec<GuildChannel>,
    from: usize,
    now: &Clock,
) -> (r: (BackfillState, Action))
    requires
        from <= threads@.len(),
        threads_dated(threads@),
    ensures
        walk_result(bot_id, forum_id, cutoff, threads, from as int, now.text@, r),
        backfill_state_ok(r.0),
{
    let mut i: usize = from;
    while i < threads.len()
        invariant
            from <= i <= threads@.len(),
            threads_dated(threads@),
            forall|j: int| from <= j < i ==> thread_left_alone(#[trigger] threads@[j], forum_id, bot_id, cutoff, now.text@),
        decreases threads@.len() - i,
    {
        assert(thread_dated(threads@[i as int]));
        let step = backfill_step(&threads[i], forum_id, bot_id, cutoff, now.text.clone());
        match step.record {
            Some(p) => {
                let read = step.read_messages;
                return (BackfillState::AfterRecord { bot_id, forum_id, cutoff, threads, index: i, read }, Action::Record(p));
            },
            None => {
                if step.read_messages {
                    let id = threads[i].id;
                    return (BackfillState::AfterRead { bot_id, forum_id, cutoff, threads, index: i }, Action::ReadMessages(id));
                }
            },
        }
        i = i + 1;
    }
    (BackfillState::Finished, Action::Finish(Ok(())))
}

/// The next step of catching up on active threads when the bot starts: the
/// forum channel is looked up (none set: stop; an id that does not read: fail),
/// then the latest post, whose date is the cutoff (now when there is none; a
/// date that does not read: fail), then the active threads, which are gone
/// through in order as `walk_result` says: for each, its post recorded and its
/// messages read as `backfill_decision` says. Discord gives every thread with
/// metadata a creation time.
pub fn backfill_flow_step(state: BackfillState, event: FlowEvent, now: &Clock) -> (r: (BackfillState, Action))
    requires
        backfill_state_ok(state),
        event matches FlowEvent::ThreadsFetched(ts) ==> threads_dated(ts@),
    ensures
        backfill_state_ok(r.0),
        match (state, event) {
            (BackfillState::Start(bot_id), FlowEvent::Started) => r.0 == BackfillState::WaitForum(bot_id) && r.1
                == Action::LoadForum,
            (BackfillState::WaitForum(bot_id), FlowEvent::ForumLoaded(f)) => match forum_target(forum_row_view(f)) {
                Err(e) => r.0 == BackfillState::Finished && finishes_with(r.1, e),
                Ok(None) => r.0 == BackfillState::Finished && r.1 == Action::Finish(Ok(())),
                Ok(Some(id)) => r.0 == (BackfillState::WaitLatest { bot_id, forum_id: id }) && r.1
                    == Action::LoadLatestPost,
            },
            (BackfillState::WaitLatest { bot_id, forum_id }, FlowEvent::LatestPostLoaded(d)) => match cutoff_outcome(
                match d { Some(d) => Some(rfc3339_instant(d@)), None => None },
                now.instant,
            ) {
                Err(e) => r.0 == BackfillState::Finished && finishes_with(r.1, e),
                Ok(c) => r.0 == (BackfillState::WaitThreads { bot_id, forum_id, cutoff: c }) && r.1
                    == Action::FetchActiveThreads,
            },
            (BackfillState::WaitThreads { bot_id, forum_id, cutoff }, FlowEvent::ThreadsFetched(ts)) => walk_result(
                bot_id,
                forum_id,
                cutoff,
                ts,
                0,
                now.text@,
                r,
            ),
            (
                BackfillState::AfterRecord { bot_id, forum_id, cutoff, threads, index, read },
                FlowEvent::Done,
            ) => if read {
                r.0 == (BackfillState::AfterRead { bot_id, forum_id, cutoff, threads, index }) && r.1
                    == Action::ReadMessages(threads@[index as int].id)
            } else {
                walk_result(bot_id, forum_id, cutoff, threads, index + 1, now.text@, r)
            },
            (BackfillState::AfterRead { bot_id, forum_id, cutoff, threads, index }, FlowEvent::Done) => walk_result(
                bot_id,
                forum_id,
                cutoff,
                threads,
                index + 1,
                now.text@,
                r,
            ),
            _ => r.0 == BackfillState::Finished && r.1 == Action::Finish(Ok(())),
        },
{
    match (state, event) {
        (BackfillState::Start(bot_id), FlowEvent::Started) => (BackfillState::WaitForum(bot_id), Action::LoadForum),
        (BackfillState::WaitForum(bot_id), FlowEvent::ForumLoaded(f)) => match forum_channel_id(f) {
            Err(e) => (BackfillState::Finished, Action::Finish(Err(e))),
            Ok(None) => (BackfillState::Finished, Action::Finish(Ok(()))),
            Ok(Some(id)) => (BackfillState::WaitLatest { bot_id, forum_id: id }, Action::LoadLatestPost),
        },
        (BackfillState::WaitLatest { bot_id, forum_id }, FlowEvent::LatestPostLoaded(d)) => match backfill_cutoff(
            d,
            now.instant,
        ) {
            Err(e) => (BackfillState::Finished, Action::Finish(Err(e))),
            Ok(c) => (BackfillState::WaitThreads { bot_id, forum_id, cutoff: c }, Action::FetchActiveThreads),
        },
        (BackfillState::WaitThreads { bot_id, forum_id, cutoff }, FlowEvent::ThreadsFetched(ts)) => backfill_walk(
            bot_id,
            forum_id,
            cutoff,
            ts,
            0,
            now,
        ),
        (BackfillState::AfterRecord { bot_id, forum_id, cutoff, threads, index, read }, FlowEvent::Done) => if read {
            let id = threads[index].id;
            (BackfillState::AfterRead { bot_id, forum_id, cutoff, threads, index }, Action::ReadMessages(id))
        } else {
            let n = threads.len();
            assert(index < n);
            backfill_walk(bot_id, forum_id, cutoff, threads, index + 1, now)
        },
        (BackfillState::AfterRead { bot_id, forum_id, cutoff, threads, index }, FlowEvent::Done) => {
            let n = threads.len();
            assert(index < n);
            backfill_walk(bot_id, forum_id, cutoff, threads, index + 1, now)
        },
        _ => (BackfillState::Finished, Action::Finish(Ok(()))),
    }
}

} // verus!
