use geoffrey::questions::{
    anonymous_post, applied_tags, ask_plan, chosen_tags, no_forum_reply, question_posted_reply,
    wrong_channel_reply, AskPlan, Tag, ThreadKind, ThreadRequest,
};
use geoffrey::records::{Channel, ForumTag, GuildChannel, NewPost, PostKind};

fn s(x: &str) -> String {
    x.to_string()
}

fn forum(tags: Vec<ForumTag>) -> Channel {
    Channel::Guild(GuildChannel { id: 5, parent_id: None, owner_id: None, available_tags: tags, thread_metadata: None })
}

#[test]
fn tag_names() {
    assert_eq!(Tag::Linux.name(), "Linux");
    assert_eq!(Tag::Dictionaries.name(), "Dictionaries");
    assert_eq!(Tag::Variables.name(), "Variables");
}

#[test]
fn chosen_tag_names() {
    assert_eq!(chosen_tags(Tag::Python, None, Some(Tag::Loops)), vec![s("Python"), s("Loops")]);
    assert_eq!(chosen_tags(Tag::Bio, Some(Tag::Career), Some(Tag::Grammar)), vec![s("Bio"), s("Career"), s("Grammar")]);
}

#[test]
fn applied_tags_keep_forum_order() {
    let available = vec![
        ForumTag { id: 1, name: s("Loops") },
        ForumTag { id: 2, name: s("Linux") },
        ForumTag { id: 3, name: s("Python") },
        ForumTag { id: 4, name: s("python") },
    ];
    let chosen = vec![s("Python"), s("Loops")];
    assert_eq!(applied_tags(&available, &chosen), vec![1, 3]);
    assert_eq!(applied_tags(&available, &vec![]), Vec::<u64>::new());
}

#[test]
fn ask_opens_thread() {
    let ch = forum(vec![ForumTag { id: 9, name: s("Bio") }, ForumTag { id: 10, name: s("Lists") }]);
    let p = ask_plan(&ch, s("Title"), s("Body"), Tag::Lists, Some(Tag::Linux), None);
    assert_eq!(p, AskPlan::Open(ThreadRequest { kind: ThreadKind::Public, title: s("Title"), content: s("Body"), tag_ids: vec![10] }));
}

#[test]
fn ask_wrong_channel() {
    assert_eq!(ask_plan(&Channel::Other, s("T"), s("B"), Tag::Bio, None, None), AskPlan::WrongChannel);
    assert_eq!(wrong_channel_reply(), "Invalid channel type configured");
}

#[test]
fn ask_replies_and_record() {
    assert_eq!(
        no_forum_reply(),
        "I don't know where to ask that question. Please ask your professor to set the forum channel."
    );
    assert_eq!(
        question_posted_reply(123),
        "Your question has been posted. Be sure to follow this thread to see the answer: <#123> "
    );
    assert_eq!(
        anonymous_post(123, 456, s("2023-08-18T20:07:44+00:00")),
        NewPost {
            post_id: s("123"),
            user_id: s("456"),
            date: s("2023-08-18T20:07:44+00:00"),
            kind: PostKind::AnonymousThread,
            deleted: false
        }
    );
    assert_eq!(PostKind::AnonymousThread.text(), "ANONYMOUS_THREAD");
    assert_eq!(PostKind::Message.text(), "MESSAGE");
    assert_eq!(PostKind::Thread.text(), "THREAD");
}

