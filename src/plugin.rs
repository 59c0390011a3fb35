//! The plugin chain: its fixed order, each plugin's name and usage line, and
//! the decisions of the plugins that answer commands.
use crate::config::{is_owner_of, General};
use crate::event::{bot_cmd_args, Event, EventHandled, VoiceState};
use crate::text::{contains, contains_of};
use vstd::prelude::*;

pub mod rivals_rating;
pub mod vc_notify;

verus! {

/// Each plugin of the chain.
#[derive(Clone, Copy, Debug, PartialEq, Eq, Structural)]
pub enum PluginId {
    Debug,
    History,
    IgnoreBots,
    Help,
    Xkcd,
    Music,
    Reload,
    VcNotify,
    RivalsRating,
    LlmReply,
    React,
}

pub const HELP_USAGE: &'static str = " - show this help message";

pub const XKCD_USAGE: &'static str = " - show random xkcd comic";

pub const MUSIC_USAGE: &'static str = " - fetch random music from YouTube";

pub const RELOAD_USAGE: &'static str = " - reload config (bot owner only)";

pub const VC_NOTIFY_USAGE: &'static str = " <follow/unfollow> - voice channel activity notifications";

pub const RIVALS_USAGE: &'static str = " <subcommand> -- manage rivals ratings\n| Subcommands:\n| create <initial_rating> [player_name] - create a player\n| delete <player_name> - delete a player\n| list - list all players\n| preview <player1> <player2> - show ratings and starting handicap\n| report <player1> beat <player2> - report a match result (you must own the loser)";

pub const HELP_HEADER: &'static str = "```\nCommands:\n";

pub const HELP_FOOTER: &'static str = "```\n";

pub const XKCD_RANDOM_URL: &'static str = "https://xkcd.com/221/";

pub const MUSIC_URL: &'static str = "https://www.youtube.com/watch?v=dQw4w9WgXcQ";

/// The plugins in the order in which they are offered each event: structural
/// ones first, then commands, then the conversational fallback.
pub open spec fn plugin_order() -> Seq<PluginId> {
    seq![
        PluginId::Debug,
        PluginId::History,
        PluginId::IgnoreBots,
        PluginId::Help,
        PluginId::Xkcd,
        PluginId::Music,
        PluginId::Reload,
        PluginId::VcNotify,
        PluginId::RivalsRating,
        PluginId::LlmReply,
        PluginId::React,
    ]
}

/// A plugin's name, which is also its command word.
pub open spec fn name_of(p: PluginId) -> Seq<char> {
    match p {
        PluginId::Debug => "debug"@,
        PluginId::History => "history"@,
        PluginId::IgnoreBots => "ignore_bots"@,
        PluginId::Help => "help"@,
        PluginId::Xkcd => "xkcd"@,
        PluginId::Music => "music"@,
        PluginId::Reload => "reload"@,
        PluginId::VcNotify => "vc-notify"@,
        PluginId::RivalsRating => "rivals"@,
        PluginId::LlmReply => "llm_reply"@,
        PluginId::React => "react"@,
    }
}

/// What a plugin's usage line says after the prefix and its name, if it has one.
pub open spec fn usage_tail_of(p: PluginId) -> Option<Seq<char>> {
    match p {
        PluginId::Help => Some(HELP_USAGE@),
        PluginId::Xkcd => Some(XKCD_USAGE@),
        PluginId::Music => Some(MUSIC_USAGE@),
        PluginId::Reload => Some(RELOAD_USAGE@),
        PluginId::VcNotify => Some(VC_NOTIFY_USAGE@),
        PluginId::RivalsRating => Some(RIVALS_USAGE@),
        _ => None,
    }
}

/// A plugin's usage line under command prefix `prefix`, if it has one.
pub open spec fn usage_of(p: PluginId, prefix: Seq<char>) -> Option<Seq<char>> {
    match usage_tail_of(p) {
        Some(tail) => Some(prefix + name_of(p) + tail),
        None => None,
    }
}

/// The usage lines of `ps`, in order, each ended by a newline.
pub open spec fn usage_lines(ps: Seq<PluginId>, prefix: Seq<char>) -> Seq<char>
    decreases ps.len(),
{
    if ps.len() == 0 {
        Seq::empty()
    } else {
        usage_lines(ps.drop_last(), prefix) + match usage_of(ps.last(), prefix) {
            Some(u) => u.push('\n'),
            None => Seq::empty(),
        }
    }
}

/// The reply to the help command under prefix `prefix`.
pub open spec fn help_text(prefix: Seq<char>) -> Seq<char> {
    HELP_HEADER@ + usage_lines(plugin_order(), prefix) + HELP_FOOTER@
}

/// The plugins in the order in which they are offered each event.
pub fn plugins() -> (r: Vec<PluginId>)
    ensures
        r@ == plugin_order(),
{
    let r = vec![
        PluginId::Debug,
        PluginId::History,
        PluginId::IgnoreBots,
        PluginId::Help,
        PluginId::Xkcd,
        PluginId::Music,
        PluginId::Reload,
        PluginId::VcNotify,
        PluginId::RivalsRating,
        PluginId::LlmReply,
        PluginId::React,
    ];
    assert(r@ =~= plugin_order());
    r
}

impl PluginId {
    /// The plugin's name, used in diagnostics and as its command word.
    pub fn name(&self) -> (r: &'static str)
        ensures
            r@ == name_of(*self),
    {
        match self {
            PluginId::Debug => "debug",
            PluginId::History => "history",
            PluginId::IgnoreBots => "ignore_bots",
            PluginId::Help => "help",
            PluginId::Xkcd => "xkcd",
            PluginId::Music => "music",
            PluginId::Reload => "reload",
            PluginId::VcNotify => "vc-notify",
            PluginId::RivalsRating => "rivals",
            PluginId::LlmReply => "llm_reply",
            PluginId::React => "react",
        }
    }

    fn usage_tail(&self) -> (r: Option<&'static str>)
        ensures
            match r {
                Some(t) => usage_tail_of(*self) == Some(t@),
                None => usage_tail_of(*self) is None,
            },
    {
        match self {
            PluginId::Help => Some(HELP_USAGE),
            PluginId::Xkcd => Some(XKCD_USAGE),
            PluginId::Music => Some(MUSIC_USAGE),
            PluginId::Reload => Some(RELOAD_USAGE),
            PluginId::VcNotify => Some(VC_NOTIFY_USAGE),
            PluginId::RivalsRating => Some(RIVALS_USAGE),
            _ => None,
        }
    }

    /// The plugin's line in the help reply under command prefix `prefix`;
    /// `None` for a plugin that takes no command.
    pub fn usage(&self, prefix: &str) -> (r: Option<String>)
        ensures
            match r {
                Some(u) => usage_of(*self, prefix@) == Some(u@),
                None => usage_of(*self, prefix@) is None,
            },
    {
        match self.usage_tail() {
            Some(tail) => {
                let mut line = prefix.to_owned();
                line.append(self.name());
                line.append(tail);
                Some(line)
            },
            None => None,
        }
    }
}

/// The reply to the help command: every plugin's usage line, in chain order.
pub fn help_reply(prefix: &str) -> (r: String)
    ensures
        r@ == help_text(prefix@),
{
    let all = plugins();
    let mut reply = HELP_HEADER.to_owned();
    let mut i: usize = 0;
    while i < all.len()
        invariant
            i <= all@.len(),
            all@ == plugin_order(),
            reply@ == HELP_HEADER@ + usage_lines(all@.subrange(0, i as int), prefix@),
        decreases all@.len() - i,
    {
        match all[i].usage(prefix) {
            Some(u) => {
                reply.append(u.as_str());
                reply.append("\n");
                proof {
                    reveal_strlit("\n");
                }
            },
            None => {},
        }
        proof {
            let ps = all@.subrange(0, i + 1);
            assert(ps.drop_last() =~= all@.subrange(0, i as int));
            assert(ps.last() == all@[i as int]);
            assert(reply@ =~= HELP_HEADER@ + usage_lines(ps, prefix@));
        }
        i = i + 1;
    }
    assert(all@.subrange(0, all@.len() as int) =~= all@);
    reply.append(HELP_FOOTER);
    reply
}

/// Logs each event; never handles one.
pub struct Debug;

/// Records each message in the channel's history; never handles one.
pub struct History;

/// Stops the chain at messages written by bots, so that two bots cannot
/// keep answering each other.
pub struct IgnoreBots;

/// Answers the help command with every plugin's usage line.
pub struct Help;

/// Answers its command with a comic.
pub struct Xkcd;

/// Answers its command with a song.
pub struct Music;

/// Reloads the configuration on its command, for the bot's owners.
pub struct Reload;

/// Reacts to messages that name the bot.
pub struct React;

/// Answers messages addressed to the bot through the language model.
pub struct LlmReply;

/// What the reload command leads to.
#[derive(Clone, Copy, Debug, PartialEq, Eq, Structural)]
pub enum ReloadAction {
    /// The author owns the bot: reload the configuration.
    Reload,
    /// Anyone else: answer with the permission-denied persona.
    PermissionDenied,
}

/// How a user's voice-chat state changed, as the log tells it.
#[derive(Clone, Copy, Debug, PartialEq, Eq, Structural)]
pub enum VoiceChange {
    /// Moved from one channel to another.
    Moved { from: Option<u64>, to: u64 },
    /// Left voice chat.
    Left { from: Option<u64> },
    /// Joined a channel.
    Joined { to: u64 },
    /// Nothing known before or after.
    Unknown,
}

/// The change that `old` to `new` amounts to; `None` for a change within one
/// channel, such as muting.
pub open spec fn voice_change_of(old: Option<VoiceState>, new: VoiceState) -> Option<VoiceChange> {
    match (old, new.channel_id) {
        (Some(o), Some(to)) => if o.channel_id == Some(to) {
            None
        } else {
            Some(VoiceChange::Moved { from: o.channel_id, to })
        },
        (Some(o), None) => Some(VoiceChange::Left { from: o.channel_id }),
        (None, Some(to)) => Some(VoiceChange::Joined { to }),
        (None, None) => Some(VoiceChange::Unknown),
    }
}

impl Debug {
    pub fn name(&self) -> (r: &'static str)
        ensures
            r@ == name_of(PluginId::Debug),
    {
        PluginId::Debug.name()
    }

    pub fn usage(&self, prefix: &str) -> (r: Option<String>)
        ensures
            r is None,
    {
        PluginId::Debug.usage(prefix)
    }

    /// What to log of a voice-state change.
    pub fn voice_change(&self, old: &Option<VoiceState>, new: &VoiceState) -> (r: Option<
        VoiceChange,
    >)
        ensures
            r == voice_change_of(*old, *new),
    {
        match (old, new.channel_id) {
            (Some(o), Some(to)) => {
                if o.channel_id == Some(to) {
                    None
                } else {
                    Some(VoiceChange::Moved { from: o.channel_id, to })
                }
            },
            (Some(o), None) => Some(VoiceChange::Left { from: o.channel_id }),
            (None, Some(to)) => Some(VoiceChange::Joined { to }),
            (None, None) => Some(VoiceChange::Unknown),
        }
    }
}

impl History {
    pub fn name(&self) -> (r: &'static str)
        ensures
            r@ == name_of(PluginId::History),
    {
        PluginId::History.name()
    }

    pub fn usage(&self, prefix: &str) -> (r: Option<String>)
        ensures
            r is None,
    {
        PluginId::History.usage(prefix)
    }
}

impl IgnoreBots {
    pub fn name(&self) -> (r: &'static str)
        ensures
            r@ == name_of(PluginId::IgnoreBots),
    {
        PluginId::IgnoreBots.name()
    }

    pub fn usage(&self, prefix: &str) -> (r: Option<String>)
        ensures
            r is None,
    {
        PluginId::IgnoreBots.usage(prefix)
    }

    /// `Yes` exactly for a message written by a bot.
    pub fn handle(&self, event: &Event) -> (r: EventHandled)
        ensures
            r == (if event matches Event::Message(m) && m.author_is_bot {
                EventHandled::Yes
            } else {
                EventHandled::No
            }),
    {
        match event {
            Event::Message(msg) => if msg.author_is_bot {
                EventHandled::Yes
            } else {
                EventHandled::No
            },
            _ => EventHandled::No,
        }
    }
}

impl Help {
    pub fn name(&self) -> (r: &'static str)
        ensures
            r@ == name_of(PluginId::Help),
    {
        PluginId::Help.name()
    }

    pub fn usage(&self, prefix: &str) -> (r: Option<String>)
        ensures
            match r {
                Some(u) => usage_of(PluginId::Help, prefix@) == Some(u@),
                None => false,
            },
    {
        PluginId::Help.usage(prefix)
    }

    /// The help reply when `event` is the help command; `None` (not handled)
    /// otherwise.
    pub fn handle(&self, event: &Event, prefix: &str) -> (r: Option<String>)
        ensures
            match event {
                Event::Message(m) => match bot_cmd_args(m.content@, prefix@, name_of(PluginId::Help)) {
                    Some(_) => r matches Some(reply) && reply@ == help_text(prefix@),
                    None => r is None,
                },
                _ => r is None,
            },
    {
        match event.is_bot_cmd(prefix, self.name()) {
            Some(_) => Some(help_reply(prefix)),
            None => None,
        }
    }
}

impl Xkcd {
    pub fn name(&self) -> (r: &'static str)
        ensures
            r@ == name_of(PluginId::Xkcd),
    {
        PluginId::Xkcd.name()
    }

    pub fn usage(&self, prefix: &str) -> (r: Option<String>)
        ensures
            match r {
                Some(u) => usage_of(PluginId::Xkcd, prefix@) == Some(u@),
                None => false,
            },
    {
        PluginId::Xkcd.usage(prefix)
    }

    /// The comic's address when `event` is this plugin's command.
    pub fn handle(&self, event: &Event, prefix: &str) -> (r: Option<&'static str>)
        ensures
            match event {
                Event::Message(m) => match bot_cmd_args(m.content@, prefix@, name_of(PluginId::Xkcd)) {
                    Some(_) => r == Some(XKCD_RANDOM_URL),
                    None => r is None,
                },
                _ => r is None,
            },
    {
        match event.is_bot_cmd(prefix, self.name()) {
            Some(_) => Some(XKCD_RANDOM_URL),
            None => None,
        }
    }
}

impl Music {
    pub fn name(&self) -> (r: &'static str)
        ensures
            r@ == name_of(PluginId::Music),
    {
        PluginId::Music.name()
    }

    pub fn usage(&self, prefix: &str) -> (r: Option<String>)
        ensures
            match r {
                Some(u) => usage_of(PluginId::Music, prefix@) == Some(u@),
                None => false,
            },
    {
        PluginId::Music.usage(prefix)
    }

    /// The song's address when `event` is this plugin's command.
    pub fn handle(&self, event: &Event, prefix: &str) -> (r: Option<&'static str>)
        ensures
            match event {
                Event::Message(m) => match bot_cmd_args(m.content@, prefix@, name_of(PluginId::Music)) {
                    Some(_) => r == Some(MUSIC_URL),
                    None => r is None,
                },
                _ => r is None,
            },
    {
        match event.is_bot_cmd(prefix, self.name()) {
            Some(_) => Some(MUSIC_URL),
            None => None,
        }
    }
}

impl Reload {
    pub fn name(&self) -> (r: &'static str)
        ensures
            r@ == name_of(PluginId::Reload),
    {
        PluginId::Reload.name()
    }

    pub fn usage(&self, prefix: &str) -> (r: Option<String>)
        ensures
            match r {
                Some(u) => usage_of(PluginId::Reload, prefix@) == Some(u@),
                None => false,
            },
    {
        PluginId::Reload.usage(prefix)
    }

    /// For the reload command, whether to reload (the author owns the bot) or
    /// to answer with the permission-denied persona; `None` for other events.
    pub fn handle(&self, event: &Event, general: &General) -> (r: Option<ReloadAction>)
        ensures
            match event {
                Event::Message(m) => match bot_cmd_args(
                    m.content@,
                    general.command_prefix@,
                    name_of(PluginId::Reload),
                ) {
                    Some(_) => r == Some(
                        if is_owner_of(general.bot_owners@, m.author_name@) {
                            ReloadAction::Reload
                        } else {
                            ReloadAction::PermissionDenied
                        },
                    ),
                    None => r is None,
                },
                _ => r is None,
            },
    {
        match event.is_bot_cmd(general.command_prefix.as_str(), self.name()) {
            Some((msg, _)) => if general.is_from_owner(msg.author_name.as_str()) {
                Some(ReloadAction::Reload)
            } else {
                Some(ReloadAction::PermissionDenied)
            },
            None => None,
        }
    }
}

impl React {
    pub fn name(&self) -> (r: &'static str)
        ensures
            r@ == name_of(PluginId::React),
    {
        PluginId::React.name()
    }

    pub fn usage(&self, prefix: &str) -> (r: Option<String>)
        ensures
            r is None,
    {
        PluginId::React.usage(prefix)
    }

    /// `Yes` (react with eyes) exactly for a message whose text holds the
    /// bot's name in its guild.
    pub fn handle(&self, event: &Event, bot_name: &str) -> (r: EventHandled)
        ensures
            r == (if event matches Event::Message(m) && contains_of(m.content@, bot_name@) {
                EventHandled::Yes
            } else {
                EventHandled::No
            }),
    {
        match event {
            Event::Message(msg) => if contains(msg.content.as_str(), bot_name) {
                EventHandled::Yes
            } else {
                EventHandled::No
            },
            _ => EventHandled::No,
        }
    }
}

impl LlmReply {
    pub fn name(&self) -> (r: &'static str)
        ensures
            r@ == name_of(PluginId::LlmReply),
    {
        PluginId::LlmReply.name()
    }

    pub fn usage(&self, prefix: &str) -> (r: Option<String>)
        ensures
            r is None,
    {
        PluginId::LlmReply.usage(prefix)
    }
}

} // verus!
