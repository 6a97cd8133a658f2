//! The search screen: a query typed key by key, and the commits whose
//! message contains it.
//!
//! The terminal itself is driven by the caller, which shows
//! [`Screen::query_line`] and [`Screen::visible_messages`], waits for a
//! key, hands it to [`Screen::handle_key`] and does what it answers.

use vstd::prelude::*;
use vstd::string::*;

use crate::model::{Commit, CommitView};
use crate::text::{contains_exec, contains_text, push_char};

verus! {

/// A key that the user pressed.
#[derive(Debug, Clone, Copy)]
pub enum Key {
    /// A character to append to the query.
    Char(char),
    /// Removes the last character of the query.
    Backspace,
    /// Leaves the screen.
    Esc,
    /// Any other key, which changes nothing.
    Other,
}

/// What the screen asks of its caller after a key.
#[derive(Debug, Clone, Copy, PartialEq, Eq)]
pub enum ScreenAction {
    /// Draw the query and the matching commits again.
    Redraw,
    /// Leave the screen.
    Exit,
}

/// The commits to search, and the query typed so far.
pub struct Screen {
    commits: Vec<Commit>,
    query: String,
}

/// The mathematical value of a [`Screen`].
pub struct ScreenView {
    pub commits: Seq<CommitView>,
    pub query: Seq<char>,
}

impl View for Screen {
    type V = ScreenView;

    closed spec fn view(&self) -> ScreenView {
        ScreenView { commits: self.commits@.map_values(|c: Commit| c@), query: self.query@ }
    }
}

/// The query after `key` is pressed.
pub open spec fn query_after(query: Seq<char>, key: Key) -> Seq<char> {
    match key {
        Key::Char(c) => query.push(c),
        Key::Backspace => if query.len() > 0 {
            query.drop_last()
        } else {
            query
        },
        _ => query,
    }
}

/// What the screen answers to `key`.
pub open spec fn action_after(key: Key) -> ScreenAction {
    match key {
        Key::Esc => ScreenAction::Exit,
        _ => ScreenAction::Redraw,
    }
}

/// A commit message is shown under `query` when it contains it.
pub open spec fn matches_query(message: Seq<char>, query: Seq<char>) -> bool {
    contains_text(message, query)
}

/// The messages shown for `query`: those of the commits that contain it,
/// in the order of the commits.
pub open spec fn visible(commits: Seq<CommitView>, query: Seq<char>) -> Seq<Seq<char>> {
    commits.map_values(|c: CommitView| c.message).filter(|m: Seq<char>| matches_query(m, query))
}

/// Calls `String::pop`. Claimed of it, as its documentation says: on an
/// empty string it returns `None` and leaves the string as it is; else it
/// removes the last character and returns it.
#[verifier::external_body]
fn pop_char(s: &mut String) -> (r: Option<char>)
    ensures
        old(s)@.len() == 0 ==> r is None && final(s)@ == old(s)@,
        old(s)@.len() > 0 ==> r == Some(old(s)@.last()) && final(s)@ == old(s)@.drop_last(),
{
    s.pop()
}

impl Screen {
    /// A screen over `commits` with an empty query.
    pub fn new(commits: Vec<Commit>) -> (s: Screen)
        ensures
            s@.commits == commits@.map_values(|c: Commit| c@),
            s@.query == Seq::<char>::empty(),
    {
        Screen { commits, query: String::new() }
    }

    /// The query typed so far.
    pub fn query(&self) -> (q: &str)
        ensures
            q@ == self@.query,
    {
        self.query.as_str()
    }

    /// The first line of the screen: the prompt and the query.
    pub fn query_line(&self) -> (line: String)
        ensures
            line@ == "QUERY> "@ + self@.query,
    {
        let mut line = String::from_str("QUERY> ");
        line.append(self.query.as_str());
        line
    }

    /// Takes a key: a character extends the query, backspace shortens it,
    /// escape leaves the screen, any other key changes nothing.
    pub fn handle_key(&mut self, key: Key) -> (a: ScreenAction)
        ensures
            final(self)@.commits == old(self)@.commits,
            final(self)@.query == query_after(old(self)@.query, key),
            a == action_after(key),
            (a == ScreenAction::Exit) <==> (key is Esc),
            key matches Key::Char(c) ==> final(self)@.query == old(self)@.query.push(c),
            key is Backspace ==> final(self)@.query == if old(self)@.query.len() > 0 {
                old(self)@.query.drop_last()
            } else {
                old(self)@.query
            },
            key is Esc || key is Other ==> final(self)@.query == old(self)@.query,
    {
        proof {
            lemma_only_escape_leaves(key);
        }
        match key {
            Key::Char(c) => {
                push_char(&mut self.query, c);
                ScreenAction::Redraw
            },
            Key::Backspace => {
                let _ = pop_char(&mut self.query);
                ScreenAction::Redraw
            },
            Key::Esc => ScreenAction::Exit,
            Key::Other => ScreenAction::Redraw,
        }
    }

    /// The messages of the commits that contain the query, in order.
    pub fn visible_messages(&self) -> (ms: Vec<String>)
        ensures
            ms@.map_values(|m: String| m@) == visible(self@.commits, self@.query),
            forall|k: int| 0 <= k < ms@.len() ==> contains_text(#[trigger] ms@[k]@, self@.query),
            forall|j: int|
                0 <= j < self@.commits.len() && contains_text(
                    #[trigger] self@.commits[j].message,
                    self@.query,
                ) ==> ms@.map_values(|m: String| m@).contains(self@.commits[j].message),
    {
        let ghost messages = self@.commits.map_values(|c: CommitView| c.message);
        let ghost pred = |m: Seq<char>| matches_query(m, self@.query);
        let mut ms: Vec<String> = Vec::new();
        let mut i: usize = 0;
        while i < self.commits.len()
            invariant
                i <= self.commits@.len(),
                messages.len() == self.commits@.len(),
                forall|k: int| 0 <= k < messages.len() ==> #[trigger] messages[k] == self.commits@[k].message@,
                pred == (|m: Seq<char>| matches_query(m, self@.query)),
                ms@.map_values(|m: String| m@) == messages.take(i as int).filter(pred),
            decreases self.commits@.len() - i,
        {
            let message = &self.commits[i].message;
            let ghost before = ms@;
            assert(messages.take(i + 1).drop_last() =~= messages.take(i as int));
            assert(messages.take(i + 1).last() == message@);
            reveal_with_fuel(Seq::<_>::filter, 1);
            if contains_exec(message.as_str(), self.query.as_str()) {
                ms.push(message.clone());
                assert(ms@.map_values(|m: String| m@) =~= before.map_values(|m: String| m@).push(message@));
            }
            i = i + 1;
        }
        assert(messages.take(i as int) =~= messages);
        proof {
            let shown = ms@.map_values(|m: String| m@);
            lemma_visible_shows_exactly(self@.commits, self@.query);
            assert forall|k: int| 0 <= k < ms@.len() implies contains_text(
                #[trigger] ms@[k]@,
                self@.query,
            ) by {
                assert(shown[k] == ms@[k]@);
            }
        }
        ms
    }
}

/// Typing a character and then pressing backspace gives the query back.
pub proof fn lemma_backspace_undoes_typing(query: Seq<char>, c: char)
    ensures
        query_after(query_after(query, Key::Char(c)), Key::Backspace) == query,
{
    assert(query.push(c).drop_last() =~= query);
}

/// Every message matches the empty query: before anything is typed, every
/// commit is shown.
pub proof fn lemma_empty_query_matches_all(message: Seq<char>)
    ensures
        matches_query(message, Seq::empty()),
{
    assert(message.subrange(0, 0) =~= Seq::<char>::empty());
    assert(crate::text::occurs_at(message, Seq::empty(), 0));
}

/// Typing only narrows the search: a message that contains the query
/// extended by a character contains the query.
pub proof fn lemma_typing_narrows(message: Seq<char>, query: Seq<char>, c: char)
    ensures
        matches_query(message, query_after(query, Key::Char(c))) ==> matches_query(message, query),
{
    if matches_query(message, query.push(c)) {
        let i = choose|i: int| crate::text::occurs_at(message, query.push(c), i);
        assert(message.subrange(i, i + query.len()) =~= query.push(c).subrange(0, query.len() as int));
        assert(query.push(c).subrange(0, query.len() as int) =~= query);
        assert(crate::text::occurs_at(message, query, i));
    }
}

/// Typing only narrows what the screen shows: a message shown once a
/// character is typed was shown before it was typed.
pub proof fn lemma_typing_narrows_visible(
    commits: Seq<CommitView>,
    query: Seq<char>,
    c: char,
    message: Seq<char>,
)
    ensures
        visible(commits, query_after(query, Key::Char(c))).contains(message) ==> visible(
            commits,
            query,
        ).contains(message),
{
    let messages = commits.map_values(|cv: CommitView| cv.message);
    let longer = |m: Seq<char>| matches_query(m, query.push(c));
    let shorter = |m: Seq<char>| matches_query(m, query);
    if messages.filter(longer).contains(message) {
        messages.lemma_filter_contains_rev(longer, message);
        let j = choose|j: int| 0 <= j < messages.filter(longer).len() && messages.filter(longer)[j] == message;
        messages.lemma_filter_pred(longer, j);
        lemma_typing_narrows(message, query, c);
        let i = choose|i: int| 0 <= i < messages.len() && messages[i] == message;
        messages.lemma_filter_contains(shorter, i);
    }
}

/// Only escape leaves the screen: every other key, every character among
/// them, asks for the screen to be drawn again.
pub proof fn lemma_only_escape_leaves(key: Key)
    ensures
        (action_after(key) == ScreenAction::Exit) <==> (key is Esc),
        (action_after(key) == ScreenAction::Redraw) <==> !(key is Esc),
{
}

proof fn lemma_contains_text_is_substring(message: Seq<char>, query: Seq<char>)
    ensures
        contains_text(message, query) <==> exists|i: int|
            0 <= i && i + query.len() <= message.len() && #[trigger] message.subrange(
                i,
                i + query.len(),
            ) == query,
{
    if contains_text(message, query) {
        let i = choose|i: int| crate::text::occurs_at(message, query, i);
        assert(message.subrange(i, i + query.len()) == query);
    }
    if exists|i: int|
        0 <= i && i + query.len() <= message.len() && #[trigger] message.subrange(i, i + query.len())
            == query {
        let i = choose|i: int|
            0 <= i && i + query.len() <= message.len() && #[trigger] message.subrange(i, i + query.len())
                == query;
        assert(crate::text::occurs_at(message, query, i));
    }
}

/// A message is shown under a query exactly when the query stands in it
/// somewhere, whatever the lengths of both.
pub proof fn lemma_matches_query_is_substring(message: Seq<char>, query: Seq<char>)
    ensures
        matches_query(message, query) <==> exists|i: int|
            0 <= i && i + query.len() <= message.len() && #[trigger] message.subrange(
                i,
                i + query.len(),
            ) == query,
{
    if matches_query(message, query) {
        let i = choose|i: int| crate::text::occurs_at(message, query, i);
        assert(message.subrange(i, i + query.len()) == query);
    }
    if exists|i: int|
        0 <= i && i + query.len() <= message.len() && #[trigger] message.subrange(i, i + query.len())
            == query {
        let i = choose|i: int|
            0 <= i && i + query.len() <= message.len() && #[trigger] message.subrange(i, i + query.len())
                == query;
        assert(crate::text::occurs_at(message, query, i));
    }
}

/// The screen shows a message exactly when it contains the query: every
/// message shown contains it, and every commit whose message contains it
/// is shown, whatever the message's length.
pub proof fn lemma_visible_shows_exactly(commits: Seq<CommitView>, query: Seq<char>)
    ensures
        forall|k: int|
            0 <= k < visible(commits, query).len() ==> contains_text(
                #[trigger] visible(commits, query)[k],
                query,
            ),
        forall|j: int|
            0 <= j < commits.len() && contains_text(#[trigger] commits[j].message, query)
                ==> visible(commits, query).contains(commits[j].message),
{
    let messages = commits.map_values(|c: CommitView| c.message);
    let pred = |m: Seq<char>| matches_query(m, query);
    assert forall|k: int| 0 <= k < visible(commits, query).len() implies contains_text(
        #[trigger] visible(commits, query)[k],
        query,
    ) by {
        messages.lemma_filter_pred(pred, k);
        lemma_matches_query_is_substring(visible(commits, query)[k], query);
        lemma_contains_text_is_substring(visible(commits, query)[k], query);
    }
    assert forall|j: int|
        0 <= j < commits.len() && contains_text(#[trigger] commits[j].message, query) implies visible(
        commits,
        query,
    ).contains(commits[j].message) by {
        lemma_matches_query_is_substring(commits[j].message, query);
        lemma_contains_text_is_substring(commits[j].message, query);
        assert(messages[j] == commits[j].message);
        messages.lemma_filter_contains(pred, j);
    }
}

} // verus!
