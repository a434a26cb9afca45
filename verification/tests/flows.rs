use geoffrey::dates::Instant;
use geoffrey::errors::BotError;
use geoffrey::flows::{
    ask_step, backfill_flow_step, message_step, thread_step, Action, AskInput, AskState, BackfillState, Clock,
    FlowEvent, MessageState, ThreadState,
};
use geoffrey::ids::IdError;
use geoffrey::questions::{Tag, ThreadKind, ThreadRequest};
use geoffrey::records::{Channel, ForumChannel, ForumTag, GuildChannel, MessageInfo, NewPost, PostKind, ThreadMetadata};

fn s(x: &str) -> String {
    x.to_string()
}

fn clock() -> Clock {
    Clock { text: s("2024-01-01T00:00:00+00:00"), instant: Instant { seconds: 1704067200, nanos: 0 } }
}

fn forum_row(id: &str) -> FlowEvent {
    FlowEvent::ForumLoaded(Some(ForumChannel { id: s(id) }))
}

fn guild(id: u64, parent: Option<u64>, owner: Option<u64>, meta: Option<ThreadMetadata>) -> GuildChannel {
    GuildChannel { id, parent_id: parent, owner_id: owner, available_tags: vec![], thread_metadata: meta }
}

fn ok() -> Action {
    Action::Finish(Ok(()))
}

#[test]
fn message_flow_records_forum_messages() {
    let m = MessageInfo { id: 7, channel_id: 50, author_id: 8, author_is_bot: false };
    let (st, a) = message_step(MessageState::Start(m), FlowEvent::Started, &clock());
    assert_eq!(a, Action::LoadForum);
    let (st, a) = message_step(st, forum_row("100"), &clock());
    assert_eq!(a, Action::FetchChannel(50));
    let (st, a) = message_step(st, FlowEvent::ChannelFetched(Channel::Guild(guild(50, Some(100), None, None))), &clock());
    assert_eq!(
        a,
        Action::Record(NewPost {
            post_id: s("7"),
            user_id: s("8"),
            date: clock().text,
            kind: PostKind::Message,
            deleted: false
        })
    );
    let (st, a) = message_step(st, FlowEvent::Done, &clock());
    assert_eq!((st, a), (MessageState::Finished, ok()));
}

#[test]
fn message_flow_stops_early() {
    let bot = MessageInfo { id: 7, channel_id: 50, author_id: 8, author_is_bot: true };
    // no lookup at all for a bot's message
    assert_eq!(message_step(MessageState::Start(bot), FlowEvent::Started, &clock()), (MessageState::Finished, ok()));
    let m = MessageInfo { id: 7, channel_id: 50, author_id: 8, author_is_bot: false };
    // no channel fetch when no forum channel is set
    assert_eq!(
        message_step(MessageState::WaitForum(m), FlowEvent::ForumLoaded(None), &clock()),
        (MessageState::Finished, ok())
    );
    assert_eq!(
        message_step(MessageState::WaitForum(m), forum_row("x1"), &clock()),
        (MessageState::Finished, Action::Finish(Err(BotError::BadId(IdError::InvalidDigit))))
    );
    assert_eq!(
        message_step(MessageState::WaitChannel(m, 100), FlowEvent::ChannelFetched(Channel::Other), &clock()),
        (MessageState::Finished, ok())
    );
}

#[test]
fn thread_flow() {
    let t = guild(9, Some(100), Some(8), None);
    let (st, a) = thread_step(ThreadState::Start { thread: t.clone(), bot_id: 1 }, FlowEvent::Started, &clock());
    assert_eq!(a, Action::LoadForum);
    let (st, a) = thread_step(st, forum_row("100"), &clock());
    assert!(matches!(a, Action::Record(ref p) if p.post_id == "9" && p.user_id == "8" && p.kind == PostKind::Thread));
    assert_eq!(thread_step(st, FlowEvent::Done, &clock()), (ThreadState::Finished, ok()));
    // the bot's own thread is not recorded
    let own = ThreadState::WaitForum { thread: guild(9, Some(100), Some(1), None), bot_id: 1 };
    assert_eq!(thread_step(own, forum_row("100"), &clock()), (ThreadState::Finished, ok()));
    let none = ThreadState::WaitForum { thread: t, bot_id: 1 };
    assert_eq!(thread_step(none, FlowEvent::ForumLoaded(None), &clock()), (ThreadState::Finished, ok()));
}

fn input() -> AskInput {
    AskInput { title: s("Help"), message: s("How?"), tag1: Tag::Python, tag2: None, tag3: None, author_id: 8 }
}

#[test]
fn ask_flow_posts_question() {
    let (st, a) = ask_step(AskState::Start(input()), FlowEvent::Started, &clock());
    assert_eq!(a, Action::LoadForum);
    let (st, a) = ask_step(st, forum_row("100"), &clock());
    assert_eq!(a, Action::FetchChannel(100));
    let mut ch = guild(100, None, None, None);
    ch.available_tags = vec![ForumTag { id: 3, name: s("Python") }, ForumTag { id: 4, name: s("Bio") }];
    let (st, a) = ask_step(st, FlowEvent::ChannelFetched(Channel::Guild(ch)), &clock());
    assert_eq!(
        a,
        Action::OpenThread(ThreadRequest { kind: ThreadKind::Public, title: s("Help"), content: s("How?"), tag_ids: vec![3] })
    );
    let (st, a) = ask_step(st, FlowEvent::ThreadOpened(555), &clock());
    assert_eq!(
        a,
        Action::Record(NewPost {
            post_id: s("555"),
            user_id: s("8"),
            date: clock().text,
            kind: PostKind::AnonymousThread,
            deleted: false
        })
    );
    let (st, a) = ask_step(st, FlowEvent::Done, &clock());
    assert_eq!(
        a,
        Action::Reply(s("Your question has been posted. Be sure to follow this thread to see the answer: <#555> "))
    );
    assert_eq!(ask_step(st, FlowEvent::Done, &clock()), (AskState::Finished, ok()));
}

#[test]
fn ask_flow_without_forum_or_server_channel() {
    let (st, a) = ask_step(AskState::WaitForum(input()), FlowEvent::ForumLoaded(None), &clock());
    assert_eq!(
        a,
        Action::Reply(s("I don't know where to ask that question. Please ask your professor to set the forum channel."))
    );
    assert_eq!(ask_step(st, FlowEvent::Done, &clock()), (AskState::Finished, ok()));
    let (_, a) = ask_step(AskState::WaitChannel(input()), FlowEvent::ChannelFetched(Channel::Other), &clock());
    assert_eq!(a, Action::Reply(s("Invalid channel type configured")));
}

fn meta(created: i64, archived: Option<i64>) -> Option<ThreadMetadata> {
    Some(ThreadMetadata {
        create_timestamp: Some(Instant { seconds: created, nanos: 0 }),
        archive_timestamp: archived.map(|a| Instant { seconds: a, nanos: 0 }),
    })
}

#[test]
fn backfill_flow_walks_threads() {
    let (st, a) = backfill_flow_step(BackfillState::Start(1), FlowEvent::Started, &clock());
    assert_eq!(a, Action::LoadForum);
    let (st, a) = backfill_flow_step(st, forum_row("100"), &clock());
    assert_eq!(a, Action::LoadLatestPost);
    let (st, a) = backfill_flow_step(st, FlowEvent::LatestPostLoaded(Some(s("1970-01-01T00:16:40+00:00"))), &clock());
    assert_eq!(a, Action::FetchActiveThreads);
    assert_eq!(st, BackfillState::WaitThreads { bot_id: 1, forum_id: 100, cutoff: Instant { seconds: 1000, nanos: 0 } });
    let threads = vec![
        guild(10, Some(100), Some(8), None),           // no metadata: left alone
        guild(11, Some(100), Some(8), meta(10, Some(5))), // archived before the cutoff: left alone
        guild(12, Some(100), Some(8), meta(2000, None)),  // new: recorded, then read
        guild(13, Some(100), Some(8), meta(10, None)),    // old, not archived: read
    ];
    let (st, a) = backfill_flow_step(st, FlowEvent::ThreadsFetched(threads), &clock());
    assert!(matches!(a, Action::Record(ref p) if p.post_id == "12"));
    let (st, a) = backfill_flow_step(st, FlowEvent::Done, &clock());
    assert_eq!(a, Action::ReadMessages(12));
    let (st, a) = backfill_flow_step(st, FlowEvent::Done, &clock());
    assert_eq!(a, Action::ReadMessages(13));
    assert_eq!(backfill_flow_step(st, FlowEvent::Done, &clock()), (BackfillState::Finished, ok()));
}

#[test]
fn backfill_flow_stops_early() {
    assert_eq!(
        backfill_flow_step(BackfillState::WaitForum(1), FlowEvent::ForumLoaded(None), &clock()),
        (BackfillState::Finished, ok())
    );
    let (st, a) = backfill_flow_step(
        BackfillState::WaitLatest { bot_id: 1, forum_id: 100 },
        FlowEvent::LatestPostLoaded(None),
        &clock(),
    );
    assert_eq!(a, Action::FetchActiveThreads);
    assert_eq!(st, BackfillState::WaitThreads { bot_id: 1, forum_id: 100, cutoff: clock().instant });
    let (_, a) = backfill_flow_step(
        BackfillState::WaitLatest { bot_id: 1, forum_id: 100 },
        FlowEvent::LatestPostLoaded(Some(s("soon"))),
        &clock(),
    );
    assert!(matches!(a, Action::Finish(Err(BotError::BadTimestamp(_)))));
    assert_eq!(
        backfill_flow_step(st, FlowEvent::ThreadsFetched(vec![]), &clock()),
        (BackfillState::Finished, ok())
    );
}
