//! The anonymous `/ask` command: choosing the tags of the question, opening a
//! thread in the forum channel, and recording it.
use crate::ids::{decimal, id_text, law_id_text_round_trip, parse_id_spec, IdError};
use crate::records::{Channel, ForumTag, NewPost, PostKind, PostView};
use vstd::prelude::*;

verus! {

/// The topics a question can be tagged with, in the order they are offered.
#[derive(Debug, Clone, Copy, PartialEq, Eq, Structural)]
pub enum Tag {
    Linux,
    Python,
    Lists,
    Course,
    Loops,
    Conditionals,
    Functions,
    Dictionaries,
    Grammar,
    Beyond,
    Bio,
    Career,
    Programming,
    Variables,
}

/// The name under which a tag is offered and matched against the forum's tags.
pub open spec fn tag_name(t: Tag) -> Seq<char> {
    match t {
        Tag::Linux => "Linux"@,
        Tag::Python => "Python"@,
        Tag::Lists => "Lists"@,
        Tag::Course => "Course"@,
        Tag::Loops => "Loops"@,
        Tag::Conditionals => "Conditionals"@,
        Tag::Functions => "Functions"@,
        Tag::Dictionaries => "Dictionaries"@,
        Tag::Grammar => "Grammar"@,
        Tag::Beyond => "Beyond"@,
        Tag::Bio => "Bio"@,
        Tag::Career => "Career"@,
        Tag::Programming => "Programming"@,
        Tag::Variables => "Variables"@,
    }
}

impl Tag {
    /// The name of this tag.
    pub fn name(&self) -> (n: &'static str)
        ensures
            n@ == tag_name(*self),
    {
        match self {
            Tag::Linux => "Linux",
            Tag::Python => "Python",
            Tag::Lists => "Lists",
            Tag::Course => "Course",
            Tag::Loops => "Loops",
            Tag::Conditionals => "Conditionals",
            Tag::Functions => "Functions",
            Tag::Dictionaries => "Dictionaries",
            Tag::Grammar => "Grammar",
            Tag::Beyond => "Beyond",
            Tag::Bio => "Bio",
            Tag::Career => "Career",
            Tag::Programming => "Programming",
            Tag::Variables => "Variables",
        }
    }
}

/// The names of the tags the asker chose: the first, then the second and third
/// where given.
pub open spec fn chosen_tag_names(t1: Tag, t2: Option<Tag>, t3: Option<Tag>) -> Seq<Seq<char>> {
    let second = match t2 {
        Some(t) => seq![tag_name(t)],
        None => Seq::<Seq<char>>::empty(),
    };
    let third = match t3 {
        Some(t) => seq![tag_name(t)],
        None => Seq::<Seq<char>>::empty(),
    };
    seq![tag_name(t1)] + second + third
}

/// The plain view of a list of texts.
pub open spec fn texts_view(v: Seq<String>) -> Seq<Seq<char>> {
    v.map_values(|s: String| s@)
}

/// The names of the chosen tags.
pub fn chosen_tags(t1: Tag, t2: Option<Tag>, t3: Option<Tag>) -> (v: Vec<String>)
    ensures
        texts_view(v@) == chosen_tag_names(t1, t2, t3),
{
    let mut v: Vec<String> = Vec::new();
    v.push(String::from_str(t1.name()));
    if let Some(t) = t2 {
        v.push(String::from_str(t.name()));
    }
    if let Some(t) = t3 {
        v.push(String::from_str(t.name()));
    }
    assert(texts_view(v@) =~= chosen_tag_names(t1, t2, t3));
    v
}

/// The plain view of a forum's tags: id and name of each.
pub open spec fn forum_tags_view(v: Seq<ForumTag>) -> Seq<(u64, Seq<char>)> {
    v.map_values(|t: ForumTag| (t.id, t.name@))
}

/// The ids of the forum tags whose name is among the chosen names, in the order
/// in which the forum lists them.
pub open spec fn applied_tag_ids(available: Seq<(u64, Seq<char>)>, chosen: Seq<Seq<char>>) -> Seq<u64>
    decreases available.len(),
{
    if available.len() == 0 {
        Seq::empty()
    } else {
        let rest = applied_tag_ids(available.drop_last(), chosen);
        if chosen.contains(available.last().1) {
            rest.push(available.last().0)
        } else {
            rest
        }
    }
}

/// Whether `name` is among `names`.
fn names_contain(names: &Vec<String>, name: &String) -> (r: bool)
    ensures
        r == texts_view(names@).contains(name@),
{
    let mut i: usize = 0;
    while i < names.len()
        invariant
            i <= names@.len(),
            forall|j: int| 0 <= j < i ==> names@[j]@ != name@,
        decreases names@.len() - i,
    {
        if names[i] == *name {
            assert(texts_view(names@)[i as int] == name@);
            return true;
        }
        i = i + 1;
    }
    proof {
        if texts_view(names@).contains(name@) {
            let k = choose|k: int| 0 <= k < texts_view(names@).len() && texts_view(names@)[k] == name@;
            assert(names@[k]@ == name@);
        }
    }
    false
}

/// The ids of the forum's tags to apply to the question's thread.
pub fn applied_tags(available: &Vec<ForumTag>, chosen: &Vec<String>) -> (ids: Vec<u64>)
    ensures
        ids@ == applied_tag_ids(forum_tags_view(available@), texts_view(chosen@)),
{
    let mut ids: Vec<u64> = Vec::new();
    let mut i: usize = 0;
    while i < available.len()
        invariant
            i <= available@.len(),
            ids@ == applied_tag_ids(forum_tags_view(available@.subrange(0, i as int)), texts_view(chosen@)),
        decreases available@.len() - i,
    {
        let ghost before = forum_tags_view(available@.subrange(0, i as int));
        let ghost after = forum_tags_view(available@.subrange(0, i + 1));
        assert(after.drop_last() =~= before);
        assert(after.last() == (available@[i as int].id, available@[i as int].name@));
        if names_contain(chosen, &available[i].name) {
            ids.push(available[i].id);
        }
        i = i + 1;
    }
    assert(available@.subrange(0, available@.len() as int) =~= available@);
    ids
}

/// The kinds of thread the bot opens.
#[derive(Debug, Clone, Copy, PartialEq, Eq, Structural)]
pub enum ThreadKind {
    /// A thread that everyone who can see the channel can see.
    Public,
}

/// The thread to open for a question.
#[derive(Debug, Clone, PartialEq, Eq)]
pub struct ThreadRequest {
    pub kind: ThreadKind,
    pub title: String,
    pub content: String,
    pub tag_ids: Vec<u64>,
}

/// What `/ask` does once the forum channel is fetched.
#[derive(Debug, Clone, PartialEq, Eq)]
pub enum AskPlan {
    /// The configured channel is not a channel of a server: say so and stop.
    WrongChannel,
    /// Open this thread.
    Open(ThreadRequest),
}

/// The thread for a question: a public thread with its title, the question as its first message, and
/// the forum's tags that carry a chosen name; refused when the configured
/// channel is not a channel of a server.
pub fn ask_plan(channel: &Channel, title: String, message: String, t1: Tag, t2: Option<Tag>, t3: Option<Tag>) -> (p: AskPlan)
    ensures
        channel is Other ==> p is WrongChannel,
        channel matches Channel::Guild(g) ==> (p matches AskPlan::Open(req) && req.kind == ThreadKind::Public
            && req.title@ == title@
            && req.content@ == message@ && req.tag_ids@ == applied_tag_ids(
            forum_tags_view(g.available_tags@),
            chosen_tag_names(t1, t2, t3),
        )),
{
    match channel {
        Channel::Other => AskPlan::WrongChannel,
        Channel::Guild(g) => {
            let chosen = chosen_tags(t1, t2, t3);
            let tag_ids = applied_tags(&g.available_tags, &chosen);
            AskPlan::Open(ThreadRequest { kind: ThreadKind::Public, title, content: message, tag_ids })
        },
    }
}

/// The reply when no forum channel is set.
pub fn no_forum_reply() -> (t: String)
    ensures
        t@ == "I don't know where to ask that question. Please ask your professor to set the forum channel."@,
{
    String::from_str("I don't know where to ask that question. Please ask your professor to set the forum channel.")
}

/// The reply when the configured channel is not a channel of a server.
pub fn wrong_channel_reply() -> (t: String)
    ensures
        t@ == "Invalid channel type configured"@,
{
    String::from_str("Invalid channel type configured")
}

/// The record of a question's thread: its id, the asker, the time, not deleted.
pub fn anonymous_post(thread_id: u64, author_id: u64, date: String) -> (p: NewPost)
    ensures
        p@ == (PostView {
            post_id: decimal(thread_id as nat),
            user_id: decimal(author_id as nat),
            date: date@,
            kind: PostKind::AnonymousThread,
            deleted: false,
        }),
{
    NewPost {
        post_id: id_text(thread_id),
        user_id: id_text(author_id),
        date,
        kind: PostKind::AnonymousThread,
        deleted: false,
    }
}

/// The reply once the question is posted: a link to its thread.
pub fn question_posted_reply(thread_id: u64) -> (t: String)
    ensures
        t@ == "Your question has been posted. Be sure to follow this thread to see the answer: <#"@
            + decimal(thread_id as nat) + "> "@,
{
    let id = id_text(thread_id);
    String::from_str("Your question has been posted. Be sure to follow this thread to see the answer: <#").concat(
        id.as_str(),
    ).concat("> ")
}

/// Law: the tags applied to a question's thread are exactly the forum's tags
/// whose name was chosen: every such tag's id is applied, and every applied id
/// is that of such a tag.
pub proof fn law_applied_tags_are_the_chosen_ones(available: Seq<(u64, Seq<char>)>, chosen: Seq<Seq<char>>)
    ensures
        forall|i: int|
            0 <= i < available.len() && chosen.contains(#[trigger] available[i].1) ==> applied_tag_ids(
                available,
                chosen,
            ).contains(available[i].0),
        forall|x: u64|
            #[trigger] applied_tag_ids(available, chosen).contains(x) ==> exists|i: int|
                0 <= i < available.len() && available[i].0 == x && chosen.contains(available[i].1),
    decreases available.len(),
{
    if available.len() > 0 {
        let init = available.drop_last();
        let rest = applied_tag_ids(init, chosen);
        let result = applied_tag_ids(available, chosen);
        let last = available.last();
        law_applied_tags_are_the_chosen_ones(init, chosen);
        assert forall|x: u64| rest.contains(x) implies result.contains(x) by {
            let j = choose|j: int| 0 <= j < rest.len() && rest[j] == x;
            if chosen.contains(last.1) {
                assert(result[j] == x);
            }
        }
        assert forall|i: int|
            0 <= i < available.len() && chosen.contains(#[trigger] available[i].1) implies result.contains(
            available[i].0,
        ) by {
            if i < available.len() - 1 {
                assert(init[i] == available[i]);
                assert(rest.contains(init[i].0));
            } else {
                assert(result[result.len() - 1] == last.0);
            }
        }
        assert forall|x: u64| #[trigger] result.contains(x) implies exists|i: int|
            0 <= i < available.len() && available[i].0 == x && chosen.contains(available[i].1) by {
            if rest.contains(x) {
                let i = choose|i: int| 0 <= i < init.len() && init[i].0 == x && chosen.contains(init[i].1);
                assert(available[i] == init[i]);
            } else {
                let j = choose|j: int| 0 <= j < result.len() && result[j] == x;
                assert(chosen.contains(last.1));
                if j < rest.len() {
                    assert(rest[j] == x);
                }
                assert(available[available.len() - 1] == last);
            }
        }
    }
}

/// Law: every tag the asker chose is among the chosen names, and nothing else is.
pub proof fn law_chosen_tags(t1: Tag, t2: Option<Tag>, t3: Option<Tag>)
    ensures
        chosen_tag_names(t1, t2, t3).contains(tag_name(t1)),
        t2 matches Some(t) ==> chosen_tag_names(t1, t2, t3).contains(tag_name(t)),
        t3 matches Some(t) ==> chosen_tag_names(t1, t2, t3).contains(tag_name(t)),
        chosen_tag_names(t1, t2, t3).len() == 1 + (if t2 is Some { 1int } else { 0 }) + (if t3 is Some { 1int } else { 0 }),
        forall|n: Seq<char>|
            #[trigger] chosen_tag_names(t1, t2, t3).contains(n) ==> (n == tag_name(t1) || (t2 is Some && n == tag_name(
                t2->0,
            )) || (t3 is Some && n == tag_name(t3->0))),
{
    let c = chosen_tag_names(t1, t2, t3);
    assert(c[0] == tag_name(t1));
    if let Some(t) = t2 {
        assert(c[1] == tag_name(t));
        if let Some(u) = t3 {
            assert(c[2] == tag_name(u));
        }
    } else if let Some(u) = t3 {
        assert(c[1] == tag_name(u));
    }
}

/// Law: the record of a question's thread reads back as the thread's id and
/// the asker's id.
pub proof fn law_anonymous_post_ids(thread_id: u64, author_id: u64)
    ensures
        parse_id_spec(decimal(thread_id as nat)) == Ok::<nat, IdError>(thread_id as nat),
        parse_id_spec(decimal(author_id as nat)) == Ok::<nat, IdError>(author_id as nat),
{
    law_id_text_round_trip(thread_id);
    law_id_text_round_trip(author_id);
}

/// Law: choosing tags goes through the forum's tags one by one, in their order:
/// a single tag gives its id when its name was chosen and nothing otherwise,
/// and the tags of two lists one after the other give the ids of the first list
/// followed by those of the second.
pub proof fn law_applied_tags_in_forum_order(
    first: Seq<(u64, Seq<char>)>,
    second: Seq<(u64, Seq<char>)>,
    chosen: Seq<Seq<char>>,
)
    ensures
        applied_tag_ids(first + second, chosen) == applied_tag_ids(first, chosen) + applied_tag_ids(second, chosen),
        forall|t: (u64, Seq<char>)|
            #[trigger] applied_tag_ids(seq![t], chosen) == if chosen.contains(t.1) {
                seq![t.0]
            } else {
                Seq::<u64>::empty()
            },
    decreases second.len(),
{
    assert forall|t: (u64, Seq<char>)|
        #[trigger] applied_tag_ids(seq![t], chosen) == if chosen.contains(t.1) {
            seq![t.0]
        } else {
            Seq::<u64>::empty()
        } by {
        assert(seq![t].drop_last() =~= Seq::<(u64, Seq<char>)>::empty());
        assert(applied_tag_ids(Seq::<(u64, Seq<char>)>::empty(), chosen) =~= Seq::<u64>::empty());
        assert(seq![t].last() == t);
        assert(Seq::<u64>::empty().push(t.0) =~= seq![t.0]);
    }
    if second.len() == 0 {
        assert(first + second =~= first);
        assert(applied_tag_ids(first, chosen) + Seq::<u64>::empty() =~= applied_tag_ids(first, chosen));
    } else {
        law_applied_tags_in_forum_order(first, second.drop_last(), chosen);
        assert((first + second).drop_last() =~= first + second.drop_last());
        assert((first + second).last() == second.last());
        let a = applied_tag_ids(first, chosen);
        let b = applied_tag_ids(second.drop_last(), chosen);
        assert((a + b).push(second.last().0) =~= a + b.push(second.last().0));
    }
}

} // verus!
