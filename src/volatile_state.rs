//! State that lives only as long as the process: the per-channel conversation
//! history and the time each user was last notified.
use std::collections::HashMap;
use vstd::prelude::*;

verus! {

broadcast use vstd::std_specs::hash::group_hash_axioms;

/// Memory-only state, reset on restart.
pub struct VolatileState {
    pub history: History,
    pub notify_timestamp: NotifyTimestamp,
}

/// One message of a channel, as the history keeps it.
pub struct HistoryEntry {
    pub author_id: u64,
    pub author_name: String,
    /// The message text with platform markup such as `<@123>` replaced by the
    /// names that a reader (or a language model) understands.
    pub human_format_content: String,
}

/// The recent messages of each channel seen so far, oldest first.
pub struct History {
    channels: HashMap<u64, Vec<HistoryEntry>>,
}

/// When each user was last notified, in milliseconds of a monotonic clock.
pub struct NotifyTimestamp {
    last: HashMap<u64, u64>,
}

/// `s` in the opposite order.
pub open spec fn reversed<T>(s: Seq<T>) -> Seq<T> {
    Seq::new(s.len(), |i: int| s[s.len() - 1 - i])
}

/// The last `max` elements of `s`, or all of them when there are no more.
pub open spec fn keep_last<T>(s: Seq<T>, max: nat) -> Seq<T> {
    if s.len() > max {
        s.subrange(s.len() - max, s.len() as int)
    } else {
        s
    }
}

/// The history of `channel` in `h`, empty for a channel not seen yet.
pub open spec fn channel_or_empty(h: Map<u64, Seq<HistoryEntry>>, channel: u64) -> Seq<HistoryEntry> {
    if h.contains_key(channel) {
        h[channel]
    } else {
        Seq::empty()
    }
}

/// The history after `entry` is appended to `channel` and the oldest entries
/// beyond `max` are dropped.
pub open spec fn pushed(
    h: Map<u64, Seq<HistoryEntry>>,
    channel: u64,
    entry: HistoryEntry,
    max: nat,
) -> Map<u64, Seq<HistoryEntry>> {
    h.insert(channel, keep_last(channel_or_empty(h, channel).push(entry), max))
}

/// The history after `channel` is seeded with `newest_first`, unless it holds
/// that channel already.
pub open spec fn backfilled(
    h: Map<u64, Seq<HistoryEntry>>,
    channel: u64,
    newest_first: Seq<HistoryEntry>,
) -> Map<u64, Seq<HistoryEntry>> {
    if h.contains_key(channel) {
        h
    } else {
        h.insert(channel, reversed(newest_first))
    }
}

/// Whether a user last notified at `last` (if ever) may be notified again at
/// `now_ms`, with a cooldown of `limit_secs` seconds.
pub open spec fn may_notify(last: Option<u64>, now_ms: u64, limit_secs: u64) -> bool {
    match last {
        None => true,
        Some(t) => {
            let elapsed = if now_ms >= t {
                now_ms - t
            } else {
                0
            };
            elapsed > limit_secs * 1000
        },
    }
}

/// The history after each of `pushes` (a channel and an entry) in turn.
pub open spec fn pushed_all(
    h: Map<u64, Seq<HistoryEntry>>,
    pushes: Seq<(u64, HistoryEntry)>,
    max: nat,
) -> Map<u64, Seq<HistoryEntry>>
    decreases pushes.len(),
{
    if pushes.len() == 0 {
        h
    } else {
        pushed(pushed_all(h, pushes.drop_last(), max), pushes.last().0, pushes.last().1, max)
    }
}

/// After any sequence of pushes, each channel that received one holds at
/// most `max` entries.
pub proof fn lemma_pushes_bounded(
    h: Map<u64, Seq<HistoryEntry>>,
    pushes: Seq<(u64, HistoryEntry)>,
    max: nat,
    channel: u64,
)
    requires
        exists|i: int| 0 <= i < pushes.len() && (#[trigger] pushes[i]).0 == channel,
    ensures
        pushed_all(h, pushes, max).contains_key(channel),
        pushed_all(h, pushes, max)[channel].len() <= max,
    decreases pushes.len(),
{
    if pushes.last().0 != channel {
        let i = choose|i: int| 0 <= i < pushes.len() && (#[trigger] pushes[i]).0 == channel;
        assert(pushes.drop_last()[i].0 == channel);
        lemma_pushes_bounded(h, pushes.drop_last(), max, channel);
    }
}

/// A channel is seeded once: after a backfill it counts as seeded, and a
/// second backfill, whatever was fetched for it, leaves the history as it
/// was, so that reading it again gives the same entries.
pub proof fn lemma_backfill_once(
    h: Map<u64, Seq<HistoryEntry>>,
    channel: u64,
    first: Seq<HistoryEntry>,
    second: Seq<HistoryEntry>,
)
    ensures
        backfilled(h, channel, first).contains_key(channel),
        backfilled(backfilled(h, channel, first), channel, second) == backfilled(h, channel, first),
{
}

impl View for History {
    type V = Map<u64, Seq<HistoryEntry>>;

    closed spec fn view(&self) -> Map<u64, Seq<HistoryEntry>> {
        self.channels@.map_values(|v: Vec<HistoryEntry>| v@)
    }
}

impl View for NotifyTimestamp {
    type V = Map<u64, u64>;

    closed spec fn view(&self) -> Map<u64, u64> {
        self.last@
    }
}

impl VolatileState {
    pub fn new() -> (r: Self)
        ensures
            r.history@ == Map::<u64, Seq<HistoryEntry>>::empty(),
            r.notify_timestamp@ == Map::<u64, u64>::empty(),
    {
        VolatileState { history: History::new(), notify_timestamp: NotifyTimestamp::new() }
    }
}

impl History {
    pub fn new() -> (r: Self)
        ensures
            r@ == Map::<u64, Seq<HistoryEntry>>::empty(),
    {
        let r = History { channels: HashMap::new() };
        assert(r@ =~= Map::<u64, Seq<HistoryEntry>>::empty());
        r
    }

    /// Whether `channel` has been seeded already; a channel that has not must
    /// be backfilled before its history is read.
    pub fn is_backfilled(&self, channel_id: u64) -> (r: bool)
        ensures
            r == self@.contains_key(channel_id),
    {
        self.channels.contains_key(&channel_id)
    }

    /// Seeds `channel_id` with the messages fetched from the platform, which
    /// come newest first (an empty list where fetching failed). A channel
    /// that holds a history already keeps it: each channel is seeded once.
    pub fn backfill(&mut self, channel_id: u64, newest_first: Vec<HistoryEntry>)
        ensures
            final(self)@ == backfilled(old(self)@, channel_id, newest_first@),
    {
        if self.channels.contains_key(&channel_id) {
            return;
        }
        let mut messages: Vec<HistoryEntry> = Vec::new();
        let mut rest = newest_first;
        let ghost all = rest@;
        while rest.len() > 0
            invariant
                rest@.len() <= all.len(),
                rest@ == all.subrange(0, rest@.len() as int),
                messages@ == reversed(all).subrange(0, all.len() - rest@.len()),
            decreases rest@.len(),
        {
            let entry = rest.pop().unwrap();
            messages.push(entry);
            assert(messages@ =~= reversed(all).subrange(0, all.len() - rest@.len()));
        }
        assert(messages@ =~= reversed(all));
        self.channels.insert(channel_id, messages);
        assert(self@ =~= old(self)@.insert(channel_id, reversed(all)));
    }

    /// The history of `channel_id`, oldest first, if it has been seeded.
    pub fn get(&self, channel_id: u64) -> (r: Option<&Vec<HistoryEntry>>)
        ensures
            match r {
                Some(v) => self@.contains_key(channel_id) && self@[channel_id] == v@,
                None => !self@.contains_key(channel_id),
            },
    {
        self.channels.get(&channel_id)
    }

    /// Appends `entry` to the history of `channel_id` and drops the oldest
    /// entries while there are more than `history_max`.
    pub fn push(&mut self, channel_id: u64, entry: HistoryEntry, history_max: usize)
        ensures
            final(self)@ == pushed(old(self)@, channel_id, entry, history_max as nat),
            final(self)@[channel_id].len() <= history_max,
    {
        let ghost start = self@;
        let mut history = match self.channels.remove(&channel_id) {
            Some(v) => v,
            None => Vec::new(),
        };
        assert(history@ == channel_or_empty(start, channel_id));
        history.push(entry);
        let ghost full = history@;
        while history.len() > history_max
            invariant
                full.len() >= history@.len(),
                history@ == full.subrange(full.len() - history@.len(), full.len() as int),
                history@.len() >= history_max || history@ == full,
            decreases history@.len(),
        {
            history.remove(0);
            assert(history@ =~= full.subrange(full.len() - history@.len(), full.len() as int));
        }
        assert(history@ =~= keep_last(full, history_max as nat));
        self.channels.insert(channel_id, history);
        assert(self@ =~= pushed(start, channel_id, entry, history_max as nat));
    }
}

impl NotifyTimestamp {
    pub fn new() -> (r: Self)
        ensures
            r@ == Map::<u64, u64>::empty(),
    {
        NotifyTimestamp { last: HashMap::new() }
    }

    /// Whether user `id` may be notified at `now_ms`: never notified before,
    /// or notified more than `limit_secs` seconds ago.
    pub fn okay_to_notify(&self, id: u64, now_ms: u64, limit_secs: u64) -> (r: bool)
        ensures
            r == may_notify(
                if self@.contains_key(id) {
                    Some(self@[id])
                } else {
                    None
                },
                now_ms,
                limit_secs,
            ),
    {
        match self.last.get(&id) {
            None => true,
            Some(last) => {
                let elapsed: u64 = if now_ms >= *last {
                    now_ms - *last
                } else {
                    0
                };
                (elapsed as u128) > (limit_secs as u128) * 1000
            },
        }
    }

    /// Records that user `id` was notified at `now_ms`.
    pub fn update_notify_timestamp(&mut self, id: u64, now_ms: u64)
        ensures
            final(self)@ == old(self)@.insert(id, now_ms),
    {
        self.last.insert(id, now_ms);
    }
}

} // verus!
