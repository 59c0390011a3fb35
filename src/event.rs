//! Events from the chat platform, command recognition, and the walk of the
//! plugin chain over one event.
use crate::text::{strip_prefix, strip_prefix_of};
use vstd::prelude::*;

verus! {

/// A chat message, with what the plugins read of it.
pub struct Message {
    pub channel_id: u64,
    pub guild_id: Option<u64>,
    pub author_id: u64,
    /// The author's global user name.
    pub author_name: String,
    pub author_is_bot: bool,
    pub content: String,
}

/// Where a user is in voice chat.
#[derive(Clone, Copy, Debug, PartialEq, Eq, Structural)]
pub struct VoiceState {
    pub user_id: u64,
    pub guild_id: Option<u64>,
    pub channel_id: Option<u64>,
}

/// The emoji of a reaction.
pub enum ReactionEmoji {
    /// A guild's own emoji, with its name where known.
    Custom(Option<String>),
    /// A standard emoji.
    Unicode(String),
    /// A kind of emoji that the platform added later.
    Other,
}

/// A reaction added to or removed from a message.
pub struct Reaction {
    pub user_id: Option<u64>,
    pub channel_id: u64,
    pub message_id: u64,
    pub emoji: ReactionEmoji,
}

/// The connection to the platform is ready.
pub struct Ready {
    pub guild_count: usize,
}

/// A platform event, handed to each plugin in turn.
pub enum Event {
    Ready(Ready),
    Message(Message),
    VoiceStateUpdate { old: Option<VoiceState>, new: VoiceState },
    ReactionAdd(Reaction),
    ReactionRemove(Reaction),
}

/// A plugin's verdict on an event.
#[derive(Clone, Copy, Debug, PartialEq, Eq, Structural)]
pub enum EventHandled {
    /// Handled: no later plugin sees the event.
    Yes,
    /// Later plugins may handle the event.
    No,
}

/// The argument text of command `cmd` in `content`, when `content` is the
/// command prefix followed by `cmd`.
pub open spec fn bot_cmd_args(content: Seq<char>, prefix: Seq<char>, cmd: Seq<char>) -> Option<
    Seq<char>,
> {
    match strip_prefix_of(content, prefix) {
        Some(rest) => strip_prefix_of(rest, cmd),
        None => None,
    }
}

/// The label of an emoji in the log: its name, or a placeholder.
pub open spec fn emoji_label_of(e: ReactionEmoji) -> Seq<char> {
    match e {
        ReactionEmoji::Custom(Some(name)) => name@,
        ReactionEmoji::Unicode(s) => s@,
        _ => UNKNOWN_EMOJI@,
    }
}

/// The label of an emoji that has no name.
pub const UNKNOWN_EMOJI: &'static str = "<unknown-emoji>";

impl Event {
    /// The message and the argument text, when this event is a message that
    /// spells command `cmd` after `prefix`. Matching is exact: case and white
    /// space count.
    pub fn is_bot_cmd<'a>(&'a self, prefix: &str, cmd: &str) -> (r: Option<(&'a Message, &'a str)>)
        ensures
            match self {
                Event::Message(m) => match bot_cmd_args(m.content@, prefix@, cmd@) {
                    Some(args) => r matches Some((msg, a)) && *msg == m && a@ == args,
                    None => r is None,
                },
                _ => r is None,
            },
    {
        match self {
            Event::Message(msg) => {
                match strip_prefix(msg.content.as_str(), prefix) {
                    Some(rest) => match strip_prefix(rest, cmd) {
                        Some(args) => Some((msg, args)),
                        None => None,
                    },
                    None => None,
                }
            },
            _ => None,
        }
    }
}

impl ReactionEmoji {
    /// The emoji's name, or `<unknown-emoji>` where it has none.
    pub fn label(&self) -> (r: String)
        ensures
            r@ == emoji_label_of(*self),
    {
        match self {
            ReactionEmoji::Custom(Some(name)) => name.clone(),
            ReactionEmoji::Unicode(s) => s.clone(),
            _ => UNKNOWN_EMOJI.to_owned(),
        }
    }
}

/// The walk of the plugin chain over one event: plugins are offered the event
/// in their fixed order until one handles it or none is left.
pub struct Dispatch {
    count: usize,
    next: usize,
    finished: bool,
    /// For each plugin offered the event so far, whether it handled it.
    answers: Ghost<Seq<bool>>,
}

/// The state of a walk: the number of plugins, the answers so far, and
/// whether the walk is over.
pub struct DispatchView {
    pub count: nat,
    pub answers: Seq<bool>,
    pub finished: bool,
}

impl View for Dispatch {
    type V = DispatchView;

    closed spec fn view(&self) -> DispatchView {
        DispatchView { count: self.count as nat, answers: self.answers@, finished: self.finished }
    }
}

/// Whether a walk over `count` plugins is over after `answers`: a plugin
/// handled the event, or every plugin has been offered it.
pub open spec fn walk_finished(count: nat, answers: Seq<bool>) -> bool {
    answers.contains(true) || answers.len() >= count
}

impl Dispatch {
    /// The walk's internal consistency.
    pub closed spec fn wf(&self) -> bool {
        &&& self.next as nat == self.answers@.len()
        &&& self.next <= self.count
        &&& self.finished == walk_finished(self.count as nat, self.answers@)
        &&& forall|i: int| 0 <= i < self.answers@.len() - 1 ==> !self.answers@[i]
    }

    /// A walk over a chain of `count` plugins.
    pub fn new(count: usize) -> (r: Self)
        ensures
            r.wf(),
            r@.count == count,
            r@.answers == Seq::<bool>::empty(),
            r@.finished == (count == 0),
    {
        Dispatch { count, next: 0, finished: count == 0, answers: Ghost(Seq::empty()) }
    }

    /// The index of the plugin to offer the event to now, or `None` when the
    /// walk is over.
    pub fn next_plugin(&self) -> (r: Option<usize>)
        requires
            self.wf(),
        ensures
            self@.finished <==> r is None,
            r matches Some(i) ==> i == self@.answers.len() && i < self@.count,
    {
        if self.finished {
            None
        } else {
            Some(self.next)
        }
    }

    /// Records what the plugin just offered the event made of it. A failure
    /// counts as not handled: the walk goes on.
    pub fn record<E>(&mut self, outcome: &Result<EventHandled, E>)
        requires
            old(self).wf(),
            !old(self)@.finished,
        ensures
            final(self).wf(),
            final(self)@.count == old(self)@.count,
            final(self)@.answers == old(self)@.answers.push(
                outcome matches Ok(EventHandled::Yes),
            ),
    {
        let handled = match outcome {
            Ok(EventHandled::Yes) => true,
            _ => false,
        };
        let ghost before = self.answers@;
        self.answers = Ghost(self.answers@.push(handled));
        self.next = self.next + 1;
        proof {
            if !before.contains(true) && !handled {
                assert(!self.answers@.contains(true)) by {
                    if self.answers@.contains(true) {
                        let i = choose|i: int| 0 <= i < self.answers@.len() && self.answers@[i] == true;
                        if i < before.len() {
                            assert(before[i] == true);
                        }
                    }
                }
            }
            if handled {
                assert(self.answers@[self.answers@.len() - 1] == true);
            }
        }
        self.finished = handled || self.next >= self.count;
    }
}

/// Once a plugin has handled the event, the walk is over and it was the last
/// plugin offered the event: no later plugin ever sees it.
pub proof fn lemma_handled_stops_chain(d: &Dispatch, k: int)
    requires
        d.wf(),
        0 <= k < d@.answers.len(),
        d@.answers[k],
    ensures
        d@.finished,
        d@.answers.len() == k + 1,
{
    assert(d@.answers.contains(true));
}

/// A finished walk over plugins whose answers are `outcomes` (whether each
/// plugin handles the event) offered the event to exactly the plugins up to
/// and including the first that handled it, or to all of them when none did,
/// once each and in order.
pub proof fn lemma_walk_offers(d: &Dispatch, outcomes: Seq<bool>)
    requires
        d.wf(),
        d@.finished,
        outcomes.len() == d@.count,
        forall|i: int| 0 <= i < d@.answers.len() ==> d@.answers[i] == #[trigger] outcomes[i],
    ensures
        d@.answers.len() <= outcomes.len(),
        forall|i: int| 0 <= i < d@.answers.len() - 1 ==> !(#[trigger] outcomes[i]),
        d@.answers.len() == outcomes.len() || outcomes[d@.answers.len() - 1],
{
    let a = d@.answers;
    if a.contains(true) {
        let i = choose|i: int| 0 <= i < a.len() && a[i] == true;
        assert(i == a.len() - 1);
    }
}

} // verus!
