//! Extraction of chat messages from the game server's log lines.
use vstd::prelude::*;
use crate::command::display_text;
use crate::text::{
    chars_of, contains, find_first, first_occurrence, lemma_first_occurrence_unique, matches_at,
    occurs_at, starts_with, string_from,
};

verus! {

/// The text that separates a log line's metadata from its chat payload.
pub open spec fn chat_marker() -> Seq<char> {
    " [CHAT] "@
}

/// The tag that the bridge puts in front of every platform message it prints
/// in the game; a chat payload that begins with it is the bridge's own echo.
pub open spec fn relay_tag() -> Seq<char> {
    "[Discord]"@
}

/// What follows the first chat marker of `line`, if the line has one.
pub open spec fn after_marker(line: Seq<char>) -> Option<Seq<char>> {
    if exists|i: int| first_occurrence(line, chat_marker(), i) {
        let i = choose|i: int| first_occurrence(line, chat_marker(), i);
        Some(line.subrange(i + chat_marker().len(), line.len() as int))
    } else {
        None
    }
}

/// The chat message that a log line carries: the text after its first chat
/// marker, unless that text is an echo of the bridge's own relay.
pub open spec fn chat_text(line: Seq<char>) -> Option<Seq<char>> {
    match after_marker(line) {
        Some(t) => if starts_with(t, relay_tag()) {
            None
        } else {
            Some(t)
        },
        None => None,
    }
}

/// The chat message carried by a server log line: the text after the first
/// `" [CHAT] "`, or nothing when the line has no marker or the text is an echo
/// of a message the bridge itself relayed into the game.
pub fn try_get_log_chat_message(line: String) -> (r: Option<String>)
    ensures
        match r {
            Some(t) => chat_text(line@) == Some(t@),
            None => chat_text(line@) is None,
        },
{
    let chars = chars_of(line.as_str());
    let marker = chars_of(" [CHAT] ");
    let tag = chars_of("[Discord]");
    match find_first(&chars, &marker) {
        None => {
            assert(!exists|i: int| first_occurrence(line@, chat_marker(), i));
            None
        },
        Some(i) => {
            let ghost j = choose|j: int| first_occurrence(line@, chat_marker(), j);
            proof {
                lemma_first_occurrence_unique(line@, chat_marker(), i as int, j);
            }
            let n = chars.len();
            assert(i + marker@.len() <= n);
            let start = i + marker.len();
            let rest = string_from(&chars, start);
            proof {
                let t = line@.subrange(start as int, line@.len() as int);
                if start + tag@.len() <= line@.len() {
                    assert(t.subrange(0, tag@.len() as int) =~= line@.subrange(
                        start as int,
                        start + tag@.len(),
                    ));
                }
            }
            if matches_at(&chars, &tag, start) {
                None
            } else {
                Some(rest)
            }
        },
    }
}

/// A line without the chat marker carries no chat message.
pub proof fn lemma_no_marker_no_message(line: Seq<char>)
    requires
        !contains(line, chat_marker()),
    ensures
        chat_text(line) is None,
{
}

/// A line `"{prefix} [CHAT] {author}: {body}"` carries the message
/// `"{author}: {body}"`, when the marker does not already occur earlier in the
/// line and the message is not one of the bridge's own echoes.
pub proof fn lemma_chat_line_message(
    prefix: Seq<char>,
    author: Seq<char>,
    body: Seq<char>,
)
    requires
        forall|j: int|
            0 <= j < prefix.len() ==> !occurs_at(
                prefix + chat_marker() + display_text(author, body),
                chat_marker(),
                j,
            ),
        !starts_with(display_text(author, body), relay_tag()),
    ensures
        chat_text(prefix + chat_marker() + display_text(author, body)) == Some(
            display_text(author, body),
        ),
{
    let text = display_text(author, body);
    let line = prefix + chat_marker() + text;
    let i = prefix.len() as int;
    assert(line.subrange(i, i + chat_marker().len()) =~= chat_marker());
    assert(first_occurrence(line, chat_marker(), i));
    let j = choose|j: int| first_occurrence(line, chat_marker(), j);
    lemma_first_occurrence_unique(line, chat_marker(), i, j);
    assert(line.subrange(i + chat_marker().len(), line.len() as int) =~= text);
}

/// A line whose text after its first chat marker begins with the bridge's
/// relay tag is an echo, and carries no chat message.
pub proof fn lemma_echo_dropped(line: Seq<char>, i: int)
    requires
        first_occurrence(line, chat_marker(), i),
        starts_with(line.subrange(i + chat_marker().len(), line.len() as int), relay_tag()),
    ensures
        chat_text(line) is None,
{
    let j = choose|j: int| first_occurrence(line, chat_marker(), j);
    lemma_first_occurrence_unique(line, chat_marker(), i, j);
}

} // verus!
