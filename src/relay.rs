//! Decisions of the two relay directions.
//!
//! Inbound: a message posted on the platform becomes at most one
//! remote-console command. Outbound: the sender posts, in order, each chat
//! message it takes from its queue, and stops when the queue is closed.
use vstd::prelude::*;
use crate::command::{display_text, format_display_text, format_print_command, print_command};

verus! {

/// A message delivered by the chat platform.
pub struct InboundMessage {
    /// The channel it was posted in.
    pub channel_id: u64,
    /// The display name of its author.
    pub author_name: String,
    /// Whether the bridge's own platform identity posted it.
    pub from_self: bool,
    /// Its text.
    pub content: String,
}

/// Whether a message in `channel_id` reaches the game: it must be posted in
/// the watched channel, and not by the bridge itself.
pub open spec fn forwards(listen_channel_id: u64, channel_id: u64, from_self: bool) -> bool {
    channel_id == listen_channel_id && !from_self
}

/// The command issued for a platform message, if any.
pub open spec fn inbound_command(
    listen_channel_id: u64,
    channel_id: u64,
    from_self: bool,
    author: Seq<char>,
    body: Seq<char>,
) -> Option<Seq<char>> {
    if forwards(listen_channel_id, channel_id, from_self) {
        Some(print_command(display_text(author, body)))
    } else {
        None
    }
}

impl InboundMessage {
    pub open spec fn command_model(&self, listen_channel_id: u64) -> Option<Seq<char>> {
        inbound_command(
            listen_channel_id,
            self.channel_id,
            self.from_self,
            self.author_name@,
            self.content@,
        )
    }
}

/// The remote-console command to issue for `msg`, when the bridge listens on
/// `listen_channel_id`; nothing for a message of another channel or of the
/// bridge itself.
pub fn relay_command(listen_channel_id: u64, msg: &InboundMessage) -> (r: Option<String>)
    ensures
        r is Some <==> forwards(listen_channel_id, msg.channel_id, msg.from_self),
        match r {
            Some(c) => msg.command_model(listen_channel_id) == Some(c@),
            None => msg.command_model(listen_channel_id) is None,
        },
{
    if msg.channel_id != listen_channel_id || msg.from_self {
        return None;
    }
    let text = format_display_text(msg.author_name.as_str(), msg.content.as_str());
    Some(format_print_command(text.as_str()))
}

/// A message that the bridge's own identity posted never becomes a command,
/// whatever its channel, author and text.
pub proof fn lemma_own_message_not_forwarded(
    listen_channel_id: u64,
    channel_id: u64,
    author: Seq<char>,
    body: Seq<char>,
)
    ensures
        inbound_command(listen_channel_id, channel_id, true, author, body) is None,
{
}

/// What the outbound sender does next.
pub enum SenderAction {
    /// Post this text to the platform channel.
    Post(String),
    /// The queue is closed and drained: stop.
    Stop,
}

impl SenderAction {
    /// The text that the action posts, if it posts one.
    pub open spec fn posted_text(&self) -> Option<Seq<char>> {
        match self {
            SenderAction::Post(p) => Some(p@),
            SenderAction::Stop => None,
        }
    }
}

/// The view of what the sender took from its queue.
pub open spec fn received_model(received: Option<String>) -> Option<Seq<char>> {
    match received {
        Some(t) => Some(t@),
        None => None,
    }
}

/// The sender's step on what it took from its queue: `Some(text)` is posted
/// as it is, `None` (the queue closed) stops it.
pub fn sender_step(received: Option<String>) -> (a: SenderAction)
    ensures
        a.posted_text() == received_model(received),
{
    match received {
        Some(t) => SenderAction::Post(t),
        None => SenderAction::Stop,
    }
}

/// The texts that a run of [`sender_step`] posts when its queue hands it
/// `received`, one step each: the step's posted text, up to the first step
/// that stops.
pub open spec fn posted(received: Seq<Option<Seq<char>>>) -> Seq<Seq<char>>
    decreases received.len(),
{
    if received.len() == 0 {
        Seq::empty()
    } else {
        match received[0] {
            Some(t) => seq![t] + posted(received.drop_first()),
            None => Seq::empty(),
        }
    }
}

/// Events `e1..eN` taken from the queue in order, then its close, are posted
/// exactly once each, in the same order, and nothing else is posted.
pub proof fn lemma_posts_in_queue_order(events: Seq<Seq<char>>)
    ensures
        posted(events.map_values(|e: Seq<char>| Some(e)).push(None)) == events,
    decreases events.len(),
{
    let received = events.map_values(|e: Seq<char>| Some(e)).push(None);
    if events.len() == 0 {
        assert(received[0] is None);
        assert(posted(received) =~= events);
    } else {
        let tail = events.drop_first();
        lemma_posts_in_queue_order(tail);
        assert(received.drop_first() =~= tail.map_values(|e: Seq<char>| Some(e)).push(None));
        assert(received[0] == Some(events[0]));
        assert(posted(received) =~= events);
    }
}

} // verus!
