use digmbot::config::General;
use digmbot::event::{Dispatch, Event, EventHandled, Message, Reaction, ReactionEmoji, Ready, VoiceState};
use digmbot::helper::{human_format_content, is_to_me, mention_substitutions, mentions_my_role};
use digmbot::logging::{colored, Color, Glue, PrintColor};
use digmbot::persistent_state::VcNotify as Followers;
use digmbot::plugin::vc_notify::VcNotify;
use digmbot::plugin::{
    help_reply, plugins, Help, History, IgnoreBots, LlmReply, Music, PluginId, React, Reload,
    ReloadAction, VoiceChange, Xkcd, MUSIC_URL, XKCD_RANDOM_URL,
};
use digmbot::volatile_state::NotifyTimestamp;
use std::collections::HashSet;

fn message(content: &str) -> Event {
    Event::Message(Message {
        channel_id: 1,
        guild_id: Some(2),
        author_id: 3,
        author_name: "alice".to_string(),
        author_is_bot: false,
        content: content.to_string(),
    })
}

fn general(prefix: &str, owners: &[&str]) -> General {
    General {
        discord_token: "SECRET-REDACTED".to_string(),
        bot_owners: owners.iter().map(|s| s.to_string()).collect(),
        command_prefix: prefix.to_string(),
        notification_limit_seconds: 60,
    }
}

/// Walks a chain whose plugin `i` answers `answers[i]`, and returns the
/// plugins that were offered the event.
fn walk(answers: &[Result<EventHandled, String>]) -> Vec<usize> {
    let mut d = Dispatch::new(answers.len());
    let mut invoked = Vec::new();
    while let Some(i) = d.next_plugin() {
        invoked.push(i);
        d.record(&answers[i]);
    }
    invoked
}

#[test]
fn chain_stops_at_first_yes() {
    let answers = vec![
        Ok(EventHandled::No),
        Ok(EventHandled::No),
        Ok(EventHandled::Yes),
        Ok(EventHandled::Yes),
        Ok(EventHandled::No),
    ];
    assert_eq!(walk(&answers), vec![0, 1, 2]);
}

#[test]
fn chain_continues_after_error() {
    let answers = vec![Err("boom".to_string()), Ok(EventHandled::No), Ok(EventHandled::Yes)];
    assert_eq!(walk(&answers), vec![0, 1, 2]);
}

#[test]
fn chain_runs_all_when_nobody_handles() {
    let answers = vec![Ok(EventHandled::No), Err("x".to_string()), Ok(EventHandled::No)];
    assert_eq!(walk(&answers), vec![0, 1, 2]);
    assert_eq!(walk(&[]), Vec::<usize>::new());
}

#[test]
fn plugin_order_is_fixed() {
    let names: Vec<&str> = plugins().iter().map(|p| p.name()).collect();
    assert_eq!(
        names,
        vec![
            "debug", "history", "ignore_bots", "help", "xkcd", "music", "reload", "vc-notify",
            "rivals", "llm_reply", "react"
        ]
    );
}

#[test]
fn help_lists_every_usage_with_prefix() {
    let reply = Help.handle(&message(";help"), ";").unwrap();
    assert!(reply.starts_with("```\nCommands:\n"));
    assert!(reply.ends_with("```\n"));
    let lines: Vec<&str> = reply.lines().collect();
    assert!(lines.contains(&";help - show this help message"));
    assert!(lines.contains(&";xkcd - show random xkcd comic"));
    assert!(lines.contains(&";music - fetch random music from YouTube"));
    assert!(lines.contains(&";reload - reload config (bot owner only)"));
    assert!(lines.contains(&";vc-notify <follow/unfollow> - voice channel activity notifications"));
    assert!(lines.contains(&";rivals <subcommand> -- manage rivals ratings"));
    for p in plugins() {
        if let Some(u) = p.usage(";") {
            assert!(u.starts_with(';'));
            assert!(reply.contains(&u));
        }
    }
    assert_eq!(reply, help_reply(";"));
}

#[test]
fn help_needs_exact_prefix_and_command() {
    assert!(Help.handle(&message("!help"), ";").is_none());
    assert!(Help.handle(&message(";Help"), ";").is_none());
    assert!(Help.handle(&message(" ;help"), ";").is_none());
    assert!(Help.handle(&Event::Ready(Ready { guild_count: 1 }), ";").is_none());
    assert!(Help.handle(&message(";helpme"), ";").is_some());
}

#[test]
fn bot_command_remainder() {
    let e = message(";rivals list");
    let (msg, rest) = e.is_bot_cmd(";", "rivals").unwrap();
    assert_eq!(msg.author_id, 3);
    assert_eq!(rest, " list");
    assert_eq!(message(";xkcd").is_bot_cmd(";", "xkcd").unwrap().1, "");
    assert!(message(";xkcd").is_bot_cmd("!", "xkcd").is_none());
}

#[test]
fn usage_is_none_for_structural_plugins() {
    assert!(digmbot::plugin::Debug.usage(";").is_none());
    assert!(History.usage(";").is_none());
    assert!(IgnoreBots.usage(";").is_none());
    assert!(React.usage(";").is_none());
    assert!(LlmReply.usage(";").is_none());
    assert_eq!(PluginId::Help.usage("!").unwrap(), "!help - show this help message");
    assert_eq!(Xkcd.usage("$").unwrap(), "$xkcd - show random xkcd comic");
    assert_eq!(Music.usage("$").unwrap(), "$music - fetch random music from YouTube");
}

#[test]
fn ignore_bots_handles_bot_messages() {
    let mut e = message("hi");
    assert_eq!(IgnoreBots.handle(&e), EventHandled::No);
    if let Event::Message(m) = &mut e {
        m.author_is_bot = true;
    }
    assert_eq!(IgnoreBots.handle(&e), EventHandled::Yes);
    assert_eq!(IgnoreBots.handle(&Event::Ready(Ready { guild_count: 0 })), EventHandled::No);
}

#[test]
fn link_commands() {
    assert_eq!(Xkcd.handle(&message(";xkcd"), ";"), Some(XKCD_RANDOM_URL));
    assert_eq!(Music.handle(&message(";music now"), ";"), Some(MUSIC_URL));
    assert_eq!(Music.handle(&message("music"), ";"), None);
}

#[test]
fn reload_needs_bot_owner() {
    let g = general(";", &["boss"]);
    assert_eq!(Reload.handle(&message(";reload"), &g), Some(ReloadAction::PermissionDenied));
    let g = general(";", &["boss", "alice"]);
    assert_eq!(Reload.handle(&message(";reload"), &g), Some(ReloadAction::Reload));
    assert_eq!(Reload.handle(&message("reload"), &g), None);
    assert!(g.is_from_owner("boss"));
    assert!(!g.is_from_owner("Boss"));
}

#[test]
fn react_to_bot_name() {
    assert_eq!(React.handle(&message("hey Digm!"), "Digm"), EventHandled::Yes);
    assert_eq!(React.handle(&message("hey digm!"), "Digm"), EventHandled::No);
}

#[test]
fn voice_changes_for_the_log() {
    let vs = |c: Option<u64>| VoiceState { user_id: 5, guild_id: Some(2), channel_id: c };
    assert_eq!(digmbot::plugin::Debug.voice_change(&Some(vs(Some(1))), &vs(Some(1))), None);
    assert_eq!(
        digmbot::plugin::Debug.voice_change(&Some(vs(Some(1))), &vs(Some(2))),
        Some(VoiceChange::Moved { from: Some(1), to: 2 })
    );
    assert_eq!(digmbot::plugin::Debug.voice_change(&Some(vs(Some(1))), &vs(None)), Some(VoiceChange::Left { from: Some(1) }));
    assert_eq!(digmbot::plugin::Debug.voice_change(&None, &vs(Some(4))), Some(VoiceChange::Joined { to: 4 }));
    assert_eq!(digmbot::plugin::Debug.voice_change(&None, &vs(None)), Some(VoiceChange::Unknown));
}

#[test]
fn emoji_labels() {
    let r = |emoji| Reaction { user_id: Some(1), channel_id: 2, message_id: 3, emoji };
    assert_eq!(r(ReactionEmoji::Unicode("👀".to_string())).emoji.label(), "👀");
    assert_eq!(r(ReactionEmoji::Custom(Some("party".to_string()))).emoji.label(), "party");
    assert_eq!(r(ReactionEmoji::Custom(None)).emoji.label(), "<unknown-emoji>");
    assert_eq!(r(ReactionEmoji::Other).emoji.label(), "<unknown-emoji>");
}

#[test]
fn vc_notify_follow_and_unfollow() {
    let mut f = Followers { followers: HashSet::new() };
    let a = VcNotify.handle_message(&message(";vc-notify follow"), ";", &mut f).unwrap();
    assert_eq!(a.reply, "You have successfully subscribed to voice channel activity notifications");
    assert!(a.save);
    assert!(f.is_following(3));
    let a = VcNotify.handle_message(&message(";vc-notify follow"), ";", &mut f).unwrap();
    assert_eq!(a.reply, "You are already subscribed to voice channel activity notifications");
    assert!(!a.save);
    let a = VcNotify.handle_message(&message("  ;vc-notify   unfollow"), ";", &mut f).unwrap();
    assert_eq!(a.reply, "You have successfully unsubscribed from voice channel activity notifications");
    assert!(a.save);
    assert!(!f.is_following(3));
    let a = VcNotify.handle_message(&message(";vc-notify unfollow"), ";", &mut f).unwrap();
    assert_eq!(a.reply, "You are not subscribed to voice channel activity notifications");
    let a = VcNotify.handle_message(&message(";vc-notify"), ";", &mut f).unwrap();
    assert_eq!(a.reply, "Invalid command.  See `;help`");
    assert!(VcNotify.handle_message(&message(";vc-notifyx follow"), ";", &mut f).is_none());
    assert!(VcNotify.handle_message(&message("vc-notify follow"), ";", &mut f).is_none());
}

#[test]
fn vc_newly_available() {
    let vs = |c: Option<u64>| VoiceState { user_id: 5, guild_id: Some(2), channel_id: c };
    assert!(VcNotify.is_newly_available(&None, &vs(Some(1)), None));
    assert!(VcNotify.is_newly_available(&None, &vs(Some(1)), Some(9)));
    assert!(!VcNotify.is_newly_available(&None, &vs(Some(9)), Some(9)));
    assert!(VcNotify.is_newly_available(&Some(vs(Some(9))), &vs(Some(1)), Some(9)));
    assert!(!VcNotify.is_newly_available(&Some(vs(Some(2))), &vs(Some(1)), Some(9)));
    assert!(!VcNotify.is_newly_available(&Some(vs(Some(2))), &vs(None), None));
}

#[test]
fn vc_notification_text_and_cooldown() {
    assert_eq!(
        VcNotify.notification("bob", Some(42), "Guild", ";"),
        "bob joined VC channel <#42> in Guild\n\nYou can opt out of these notifications by replying `;vc-notify unfollow`\n"
    );
    assert!(VcNotify.notification("bob", None, "G", "!").starts_with("bob joined VC channel a VC channel in G"));
    let mut t = NotifyTimestamp::new();
    assert!(!VcNotify.should_notify(&mut t, 5, 5, 0, 60));
    assert!(VcNotify.should_notify(&mut t, 6, 5, 0, 60));
    assert!(!VcNotify.should_notify(&mut t, 6, 5, 30_000, 60));
    assert!(!VcNotify.should_notify(&mut t, 6, 5, 60_000, 60));
    assert!(VcNotify.should_notify(&mut t, 6, 5, 60_001, 60));
}

#[test]
fn mentions_become_names() {
    let users = vec![(123u64, "Alice".to_string())];
    let roles = vec![(7u64, Some("mods".to_string())), (8u64, None)];
    let channels = vec![(55u64, Some("general".to_string())), (56u64, None)];
    let text = human_format_content(
        "hi <@123> and <@!123>, <@&7> <@&8> see <#55> <#56> <@1234>",
        &users,
        &roles,
        &channels,
    );
    assert_eq!(
        text,
        "hi Alice and Alice, @mods @UnknownRole see #general #UnknownChannel <@1234>"
    );
    let subs = mention_substitutions(&users, &Vec::new(), &Vec::new());
    assert_eq!(
        subs,
        vec![
            ("<@!123>".to_string(), "Alice".to_string()),
            ("<@123>".to_string(), "Alice".to_string())
        ]
    );
}

#[test]
fn role_mentions() {
    assert!(mentions_my_role(&vec![1, 2, 3], &vec![9, 3]));
    assert!(!mentions_my_role(&vec![1, 2], &vec![9, 3]));
    assert!(!mentions_my_role(&vec![], &vec![1]));
}

#[test]
fn log_colours() {
    assert_eq!(Glue.color(false), ":");
    assert_eq!(Glue.color(true), "\x1b[90m:\x1b[0m");
    assert_eq!(colored(Color::User, "bob", true), "\x1b[32mbob\x1b[0m");
    assert_eq!(colored(Color::User, "bob", false), "bob");
    assert_eq!(Color::Guild.escape(), "\x1b[38;5;33m");
}

#[test]
fn addressed_to_the_bot() {
    assert!(is_to_me(true, None, 9, &vec![], None));
    assert!(is_to_me(false, Some(9), 9, &vec![], None));
    assert!(!is_to_me(false, Some(8), 9, &vec![1], None));
    assert!(is_to_me(false, None, 9, &vec![1, 2], Some(&vec![2])));
    assert!(!is_to_me(false, None, 9, &vec![1, 2], Some(&vec![3])));
}

#[test]
fn alone_in_voice_chat() {
    assert!(VcNotify.alone_in_voice(&vec![]));
    assert!(VcNotify.alone_in_voice(&vec![0, 1, 0]));
    assert!(!VcNotify.alone_in_voice(&vec![1, 1]));
    assert!(!VcNotify.alone_in_voice(&vec![0, 3]));
    assert!(!VcNotify.alone_in_voice(&vec![usize::MAX, usize::MAX]));
}
