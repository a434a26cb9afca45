use geoffrey::dates::Instant;
use geoffrey::errors::BotError;
use geoffrey::events::{
    backfill_cutoff, backfill_step, cutoff_from, message_post, route_event, thread_post,
    BotEvent, EventRoute, ThreadStep,
};
use geoffrey::records::{Channel, GuildChannel, MessageInfo, NewPost, PostKind, ThreadMetadata};

fn s(x: &str) -> String {
    x.to_string()
}

const FORUM: u64 = 100;
const BOT: u64 = 1;

fn thread(parent: Option<u64>, owner: Option<u64>, meta: Option<ThreadMetadata>) -> GuildChannel {
    GuildChannel { id: 555, parent_id: parent, owner_id: owner, available_tags: vec![], thread_metadata: meta }
}

fn at(seconds: i64) -> Instant {
    Instant { seconds, nanos: 0 }
}

fn thread_row(owner: u64, date: &str) -> NewPost {
    NewPost { post_id: s("555"), user_id: owner.to_string(), date: s(date), kind: PostKind::Thread, deleted: false }
}

#[test]
fn routes() {
    let m = MessageInfo { id: 1, channel_id: 3, author_id: 2, author_is_bot: false };
    assert_eq!(route_event(BotEvent::Message(m)), EventRoute::RecordMessage(m));
    assert_eq!(route_event(BotEvent::Ready { bot_id: 9 }), EventRoute::StartBackfill(9));
    assert_eq!(route_event(BotEvent::ThreadCreate(thread(None, None, None))), EventRoute::RecordThread(thread(None, None, None)));
    assert_eq!(route_event(BotEvent::Other), EventRoute::Ignore);
}

#[test]
fn messages_in_forum_threads_are_recorded() {
    let m = MessageInfo { id: 77, channel_id: 555, author_id: 8, author_is_bot: false };
    let ch = Channel::Guild(thread(Some(FORUM), Some(3), None));
    assert_eq!(
        message_post(&m, FORUM, &ch, s("now")),
        Some(NewPost { post_id: s("77"), user_id: s("8"), date: s("now"), kind: PostKind::Message, deleted: false })
    );
}

#[test]
fn other_messages_are_not_recorded() {
    let bot = MessageInfo { id: 77, channel_id: 555, author_id: 8, author_is_bot: true };
    let ch = Channel::Guild(thread(Some(FORUM), Some(3), None));
    assert_eq!(message_post(&bot, FORUM, &ch, s("now")), None);
    let m = MessageInfo { id: 77, channel_id: 555, author_id: 8, author_is_bot: false };
    assert_eq!(message_post(&m, FORUM, &Channel::Guild(thread(Some(200), None, None)), s("now")), None);
    assert_eq!(message_post(&m, FORUM, &Channel::Guild(thread(None, None, None)), s("now")), None);
    assert_eq!(message_post(&m, FORUM, &Channel::Other, s("now")), None);
}

#[test]
fn threads() {
    assert_eq!(thread_post(&thread(Some(FORUM), Some(8), None), FORUM, BOT, s("d")), Some(thread_row(8, "d")));
    // a thread without a parent is recorded too
    assert_eq!(thread_post(&thread(None, Some(8), None), FORUM, BOT, s("d")), Some(thread_row(8, "d")));
    assert_eq!(thread_post(&thread(Some(200), Some(8), None), FORUM, BOT, s("d")), None);
    assert_eq!(thread_post(&thread(Some(FORUM), None, None), FORUM, BOT, s("d")), None);
    assert_eq!(thread_post(&thread(Some(FORUM), Some(BOT), None), FORUM, BOT, s("d")), None);
}

#[test]
fn cutoff() {
    assert_eq!(backfill_cutoff(None, at(5)), Ok(at(5)));
    assert_eq!(
        backfill_cutoff(Some(s("2023-08-18T20:07:44+00:00")), at(5)),
        Ok(Instant { seconds: 1692389264, nanos: 0 })
    );
    assert_eq!(
        backfill_cutoff(Some(s("2023-08-18T22:07:44.5+02:00")), at(5)),
        Ok(Instant { seconds: 1692389264, nanos: 500_000_000 })
    );
    let e = backfill_cutoff(Some(s("yesterday")), at(5)).unwrap_err();
    assert_eq!(e, BotError::BadTimestamp(s("premature end of input")));
    assert_eq!(e.message(), "premature end of input");
    assert_eq!(cutoff_from(Some(Ok(at(3))), at(5)), Ok(at(3)));
    assert_eq!(cutoff_from(Some(Err(s("x"))), at(5)), Err(BotError::BadTimestamp(s("x"))));
}

#[test]
fn backfill_steps() {
    let cutoff = at(1000);
    let meta = |c: i64, a: Option<i64>| Some(ThreadMetadata { create_timestamp: Some(at(c)), archive_timestamp: a.map(at) });
    // no metadata: untouched
    assert_eq!(
        backfill_step(&thread(Some(FORUM), Some(8), None), FORUM, BOT, cutoff, s("d")),
        ThreadStep { record: None, read_messages: false }
    );
    // new thread: recorded and read
    assert_eq!(
        backfill_step(&thread(Some(FORUM), Some(8), meta(1001, None)), FORUM, BOT, cutoff, s("d")),
        ThreadStep { record: Some(thread_row(8, "d")), read_messages: true }
    );
    // new thread of the bot: read, not recorded
    assert_eq!(
        backfill_step(&thread(Some(FORUM), Some(BOT), meta(1001, None)), FORUM, BOT, cutoff, s("d")),
        ThreadStep { record: None, read_messages: true }
    );
    // old thread archived before the cutoff: skipped
    assert_eq!(
        backfill_step(&thread(Some(FORUM), Some(8), meta(10, Some(999))), FORUM, BOT, cutoff, s("d")),
        ThreadStep { record: None, read_messages: false }
    );
    // old thread archived later, or not archived: read
    assert_eq!(
        backfill_step(&thread(Some(FORUM), Some(8), meta(10, Some(1000))), FORUM, BOT, cutoff, s("d")),
        ThreadStep { record: None, read_messages: true }
    );
    assert_eq!(
        backfill_step(&thread(Some(FORUM), Some(8), meta(1000, None)), FORUM, BOT, cutoff, s("d")),
        ThreadStep { record: None, read_messages: true }
    );
}

#[test]
fn instants_order() {
    assert!(at(1).is_before(&at(2)));
    assert!(Instant { seconds: 1, nanos: 1 }.is_before(&Instant { seconds: 1, nanos: 2 }));
    assert!(!at(2).is_before(&at(2)));
}
