//! Voice-chat activity notifications: users follow or unfollow them by
//! command, and are told when someone becomes available in an empty voice
//! chat, at most once per cooldown.
use crate::event::{Event, VoiceState};
use crate::persistent_state::VcNotify as Followers;
use crate::plugin::{name_of, usage_of, PluginId};
use crate::text::{decimal, decimal_of, split_whitespace, strip_prefix, strip_prefix_of, words_of};
use crate::volatile_state::{may_notify, NotifyTimestamp};
use vstd::prelude::*;

verus! {

pub const ALREADY_FOLLOWING: &'static str = "You are already subscribed to voice channel activity notifications";
pub const FOLLOWED: &'static str = "You have successfully subscribed to voice channel activity notifications";
pub const UNFOLLOWED: &'static str = "You have successfully unsubscribed from voice channel activity notifications";
pub const NOT_FOLLOWING: &'static str = "You are not subscribed to voice channel activity notifications";
pub const INVALID_COMMAND: &'static str = "Invalid command.  See `";
pub const HELP_SUFFIX: &'static str = "help`";
pub const JOINED: &'static str = " joined VC channel ";
pub const IN_GUILD: &'static str = " in ";
pub const OPT_OUT: &'static str = "\n\nYou can opt out of these notifications by replying `";
pub const OPT_OUT_END: &'static str = "vc-notify unfollow`\n";
pub const SOME_CHANNEL: &'static str = "a VC channel";

/// Tells followers when someone becomes available in voice chat.
pub struct VcNotify;

/// The answer to a vc-notify command.
pub struct VcNotifyReply {
    pub reply: String,
    /// Whether the followers changed, so that the state must be saved.
    pub save: bool,
}

/// Whether `words` is the vc-notify command under `prefix`: its first word
/// is the prefix followed by `vc-notify`.
pub open spec fn is_vc_command(words: Seq<Seq<char>>, prefix: Seq<char>) -> bool {
    words.len() > 0 && strip_prefix_of(words[0], prefix) == Some(name_of(PluginId::VcNotify))
}

/// The reply to the vc-notify command with words `words`, for a user who
/// follows or not.
pub open spec fn command_reply(words: Seq<Seq<char>>, prefix: Seq<char>, following: bool) -> Seq<char> {
    if words.len() > 1 && words[1] == "follow"@ {
        if following {
            ALREADY_FOLLOWING@
        } else {
            FOLLOWED@
        }
    } else if words.len() > 1 && words[1] == "unfollow"@ {
        if following {
            UNFOLLOWED@
        } else {
            NOT_FOLLOWING@
        }
    } else {
        INVALID_COMMAND@ + prefix + HELP_SUFFIX@
    }
}

/// Whether a move from `old` to `new`, with AFK channel `afk`, makes a user
/// newly available: a join to a channel other than the AFK one, or a move
/// out of the AFK channel to another.
pub open spec fn newly_available(old: Option<u64>, new: Option<u64>, afk: Option<u64>) -> bool {
    match (old, new, afk) {
        (None, Some(_), None) => true,
        (None, Some(n), Some(a)) => n != a,
        (Some(o), Some(n), Some(a)) => o == a && n != a,
        _ => false,
    }
}

/// How the notification names the channel.
pub open spec fn channel_label(channel: Option<u64>) -> Seq<char> {
    match channel {
        Some(id) => seq!['<', '#'] + decimal_of(id as nat) + seq!['>'],
        None => SOME_CHANNEL@,
    }
}

/// The notification that `user_name` joined `channel` in guild `guild_name`.
pub open spec fn notification_text(
    user_name: Seq<char>,
    channel: Option<u64>,
    guild_name: Seq<char>,
    prefix: Seq<char>,
) -> Seq<char> {
    user_name + JOINED@ + channel_label(channel) + IN_GUILD@ + guild_name + OPT_OUT@ + prefix
        + OPT_OUT_END@
}

/// The sum of `counts`.
pub open spec fn total(counts: Seq<usize>) -> int
    decreases counts.len(),
{
    if counts.len() == 0 {
        0
    } else {
        total(counts.drop_last()) + counts.last()
    }
}

/// A sum is at least the sum of any of its prefixes.
proof fn lemma_total_prefix(counts: Seq<usize>, k: int)
    requires
        0 <= k <= counts.len(),
    ensures
        total(counts) >= total(counts.subrange(0, k)),
    decreases counts.len(),
{
    if k < counts.len() {
        assert(counts.drop_last().subrange(0, k) =~= counts.subrange(0, k));
        lemma_total_prefix(counts.drop_last(), k);
    } else {
        assert(counts.subrange(0, k) =~= counts);
    }
}

impl VcNotify {
    pub fn name(&self) -> (r: &'static str)
        ensures
            r@ == name_of(PluginId::VcNotify),
    {
        PluginId::VcNotify.name()
    }

    pub fn usage(&self, prefix: &str) -> (r: Option<String>)
        ensures
            match r {
                Some(u) => usage_of(PluginId::VcNotify, prefix@) == Some(u@),
                None => false,
            },
    {
        PluginId::VcNotify.usage(prefix)
    }

    /// Handles the vc-notify command: `follow` and `unfollow` change the
    /// followers; `None` when `event` is not the command.
    pub fn handle_message(&self, event: &Event, prefix: &str, followers: &mut Followers) -> (r: Option<
        VcNotifyReply,
    >)
        ensures
            match event {
                Event::Message(m) => {
                    let words = words_of(m.content@);
                    let following = old(followers).followers@.contains(m.author_id);
                    if is_vc_command(words, prefix@) {
                        &&& r matches Some(a) && a.reply@ == command_reply(words, prefix@, following)
                        &&& final(followers).followers@ == if words.len() > 1 && words[1] == "follow"@ {
                            old(followers).followers@.insert(m.author_id)
                        } else if words.len() > 1 && words[1] == "unfollow"@ {
                            old(followers).followers@.remove(m.author_id)
                        } else {
                            old(followers).followers@
                        }
                        &&& r matches Some(a) && a.save == (final(followers).followers@ != old(followers).followers@)
                    } else {
                        r is None && final(followers).followers@ == old(followers).followers@
                    }
                },
                _ => r is None && final(followers).followers@ == old(followers).followers@,
            },
    {
        let msg = match event {
            Event::Message(msg) => msg,
            _ => return None,
        };
        let words = split_whitespace(msg.content.as_str());
        if words.len() == 0 {
            return None;
        }
        match strip_prefix(words[0].as_str(), prefix) {
            Some(rest) => {
                let cmd = rest.to_owned();
                if cmd != self.name().to_owned() {
                    return None;
                }
            },
            None => return None,
        }
        let id = msg.author_id;
        let following = followers.is_following(id);
        let follow = "follow".to_owned();
        let unfollow = "unfollow".to_owned();
        if words.len() > 1 && words[1] == follow {
            if following {
                Some(VcNotifyReply { reply: ALREADY_FOLLOWING.to_owned(), save: false })
            } else {
                followers.follow(id);
                Some(VcNotifyReply { reply: FOLLOWED.to_owned(), save: true })
            }
        } else if words.len() > 1 && words[1] == unfollow {
            if following {
                followers.unfollow(id);
                Some(VcNotifyReply { reply: UNFOLLOWED.to_owned(), save: true })
            } else {
                Some(VcNotifyReply { reply: NOT_FOLLOWING.to_owned(), save: false })
            }
        } else {
            let mut reply = INVALID_COMMAND.to_owned();
            reply.append(prefix);
            reply.append(HELP_SUFFIX);
            Some(VcNotifyReply { reply, save: false })
        }
    }

    /// Whether the change from `old` to `new` makes the user newly available,
    /// given the guild's AFK channel.
    pub fn is_newly_available(&self, old: &Option<VoiceState>, new: &VoiceState, afk_channel: Option<u64>) -> (r: bool)
        ensures
            r == newly_available(
                match old {
                    Some(o) => o.channel_id,
                    None => None,
                },
                new.channel_id,
                afk_channel,
            ),
    {
        let old_channel = match old {
            Some(o) => o.channel_id,
            None => None,
        };
        match (old_channel, new.channel_id, afk_channel) {
            (None, Some(_), None) => true,
            (None, Some(n), Some(a)) => n != a,
            (Some(o), Some(n), Some(a)) => o == a && n != a,
            _ => false,
        }
    }

    /// Whether the user who became available is alone in voice chat: the
    /// voice channels other than the AFK one, whose member counts are
    /// `counts`, hold at most one user in all. Only then are followers told.
    pub fn alone_in_voice(&self, counts: &Vec<usize>) -> (r: bool)
        ensures
            r == (total(counts@) <= 1),
    {
        let mut sum: usize = 0;
        let mut i: usize = 0;
        while i < counts.len()
            invariant
                i <= counts@.len(),
                sum == total(counts@.subrange(0, i as int)),
                sum <= 1,
            decreases counts@.len() - i,
        {
            assert(counts@.subrange(0, i + 1).drop_last() =~= counts@.subrange(0, i as int));
            if counts[i] > 1 - sum {
                proof {
                    lemma_total_prefix(counts@, i + 1);
                }
                return false;
            }
            sum = sum + counts[i];
            i = i + 1;
        }
        assert(counts@.subrange(0, i as int) =~= counts@);
        true
    }

    /// The notification sent to followers.
    pub fn notification(&self, user_name: &str, channel: Option<u64>, guild_name: &str, prefix: &str) -> (r: String)
        ensures
            r@ == notification_text(user_name@, channel, guild_name@, prefix@),
    {
        let mut s = user_name.to_owned();
        s.append(JOINED);
        match channel {
            Some(id) => {
                s.append("<#");
                let d = decimal(id);
                s.append(d.as_str());
                s.append(">");
                proof {
                    reveal_strlit("<#");
                    reveal_strlit(">");
                }
            },
            None => s.append(SOME_CHANNEL),
        }
        s.append(IN_GUILD);
        s.append(guild_name);
        s.append(OPT_OUT);
        s.append(prefix);
        s.append(OPT_OUT_END);
        s
    }

    /// the joiner, and never notified or notified more than `limit_secs` seconds ago. A
    /// the joiner, and not notified within the last `limit_secs` seconds. A
    /// follower to be notified is recorded as notified at `now_ms`.
    pub fn should_notify(
        &self,
        timestamps: &mut NotifyTimestamp,
        follower: u64,
        joiner: u64,
        now_ms: u64,
        limit_secs: u64,
    ) -> (r: bool)
        ensures
            r == (follower != joiner && may_notify(
                if old(timestamps)@.contains_key(follower) {
                    Some(old(timestamps)@[follower])
                } else {
                    None
                },
                now_ms,
                limit_secs,
            )),
            r ==> final(timestamps)@ == old(timestamps)@.insert(follower, now_ms),
            !r ==> final(timestamps)@ == old(timestamps)@,
    {
        if follower == joiner {
            return false;
        }
        if !timestamps.okay_to_notify(follower, now_ms, limit_secs) {
            return false;
        }
        timestamps.update_notify_timestamp(follower, now_ms);
        true
    }
}

} // verus!
