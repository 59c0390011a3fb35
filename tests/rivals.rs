use digmbot::config::General;
use digmbot::event::{Event, Message};
use digmbot::persistent_state::PersistentState;
use digmbot::plugin::rivals_rating::{
    apply_match, handle_list, handle_preview, handle_report, handle_report_keyword, handle_subcommand,
    RivalsAction, RivalsError, RivalsRating,
};

fn message(author_id: u64, author_name: &str, content: &str) -> Event {
    Event::Message(Message {
        channel_id: 1,
        guild_id: Some(2),
        author_id,
        author_name: author_name.to_string(),
        author_is_bot: false,
        content: content.to_string(),
    })
}

fn general() -> General {
    General {
        discord_token: "SECRET-REDACTED".to_string(),
        bot_owners: vec!["boss".to_string()],
        command_prefix: ";".to_string(),
        notification_limit_seconds: 60,
    }
}

fn run(state: &mut PersistentState, author_id: u64, author_name: &str, content: &str) -> RivalsAction {
    RivalsRating
        .handle(&message(author_id, author_name, content), &general(), state, "Nick")
        .expect("a rivals command")
        .expect("no error")
}

fn reply(a: RivalsAction) -> String {
    match a {
        RivalsAction::Reply(s) | RivalsAction::SaveAndReply(s) => s,
        _ => panic!("not a reply"),
    }
}

fn words(s: &str) -> Vec<String> {
    s.split_whitespace().map(|w| w.to_string()).collect()
}

fn two_players() -> PersistentState {
    let mut s = PersistentState::new();
    assert!(matches!(run(&mut s, 10, "ann", ";rivals create 500 ann"), RivalsAction::SaveAndReply(_)));
    assert!(matches!(run(&mut s, 20, "ben", ";rivals create 400 ben"), RivalsAction::SaveAndReply(_)));
    s
}

#[test]
fn unauthorized_report_goes_to_permission_denied() {
    let mut s = two_players();
    // User 30 owns neither player and is not a bot owner.
    let a = run(&mut s, 30, "eve", ";rivals report ann beat ben");
    assert!(matches!(a, RivalsAction::PermissionDenied));
    // The winner's owner may not report either: only the loser's may.
    let a = run(&mut s, 10, "ann", ";rivals report ann beat ben");
    assert!(matches!(a, RivalsAction::PermissionDenied));
    assert_eq!(s.rivals_ratings.0.get("ben"), Some(400));
}

#[test]
fn authorized_report_rates_the_match() {
    let mut s = two_players();
    match run(&mut s, 20, "ben", ";rivals report ann BEAT ben") {
        RivalsAction::RateMatch { winner, winner_rating, loser, loser_rating } => {
            assert_eq!((winner.as_str(), winner_rating, loser.as_str(), loser_rating), ("ann", 500, "ben", 400));
        }
        _ => panic!("expected a match to rate"),
    }
    match run(&mut s, 99, "boss", ";rivals report ann beat ben") {
        RivalsAction::RateMatch { .. } => {}
        _ => panic!("a bot owner may report"),
    }
    let text = apply_match(&mut s, "ann", 500, 503, "ben", 400, 397);
    assert_eq!(text, "Match reported:\n• Winner `ann`: 500% → 503%\n• Loser `ben`: 400% → 397%");
    assert_eq!(s.rivals_ratings.0.get("ann"), Some(503));
    assert_eq!(s.rivals_ratings.0.get("ben"), Some(397));
}

#[test]
fn report_errors() {
    let mut s = two_players();
    assert_eq!(reply(run(&mut s, 20, "ben", ";rivals report ann ben")), "Usage: report <player1> beat <player2>");
    assert_eq!(reply(run(&mut s, 20, "ben", ";rivals report ann lost ben")), "Usage: report <player1> beat <player2>");
    assert_eq!(reply(run(&mut s, 20, "ben", ";rivals report ann beat ann")), "Winner and loser cannot be the same player.");
    assert_eq!(reply(run(&mut s, 20, "ben", ";rivals report zed beat ben")), "Player `zed` not found.");
    assert_eq!(reply(run(&mut s, 20, "ben", ";rivals report ann beat zed")), "Player `zed` not found.");
    run(&mut s, 40, "cat", ";rivals create 900 cat");
    assert_eq!(reply(run(&mut s, 20, "ben", ";rivals report cat beat ben")), "Player ratings are too far apart to update.");
    assert_eq!(
        reply(handle_report_keyword(&s, &words("report ann Beat ben"), "Beat", 20, false)),
        "Usage: report <player1> beat <player2>"
    );
    assert!(matches!(handle_report_keyword(&s, &words("report ann Beat ben"), "beat", 20, false), RivalsAction::RateMatch { .. }));
    assert!(matches!(handle_report(&s, &words("report ann bEaT ben"), 20, false), RivalsAction::RateMatch { .. }));
}

#[test]
fn create_and_its_errors() {
    let mut s = PersistentState::new();
    assert_eq!(reply(run(&mut s, 1, "u", ";rivals create")), "Usage: create <initial_rating> [player_name]");
    assert_eq!(reply(run(&mut s, 1, "u", ";rivals create abc")), "Invalid initial rating: must be an integer");
    assert_eq!(reply(run(&mut s, 1, "u", ";rivals create -5")), "Invalid initial rating: must be an integer");
    assert_eq!(reply(run(&mut s, 1, "u", ";rivals create +250")), "Player `Nick` created with initial rating 250%.");
    assert_eq!(reply(run(&mut s, 1, "u", ";rivals create 300")), "Player `Nick` already exists.");
    assert_eq!(reply(run(&mut s, 1, "u", ";rivals CREATE 300 zoe")), "Player `zoe` created with initial rating 300%.");
    assert_eq!(s.rivals_ratings.0.get("Nick"), Some(250));
    assert_eq!(s.rivals_ratings_owners.0.get("zoe"), Some(1));
}

#[test]
fn delete_needs_owner() {
    let mut s = two_players();
    assert_eq!(reply(run(&mut s, 10, "ann", ";rivals delete")), "Usage: delete <player_name>");
    assert_eq!(reply(run(&mut s, 10, "ann", ";rivals delete zed")), "Player `zed` not found.");
    assert!(matches!(run(&mut s, 10, "ann", ";rivals delete ben"), RivalsAction::PermissionDenied));
    assert_eq!(reply(run(&mut s, 20, "ben", ";rivals delete ben")), "Player `ben` has been deleted.");
    assert_eq!(s.rivals_ratings.0.get("ben"), None);
    assert_eq!(s.rivals_ratings_owners.0.get("ben"), None);
    assert_eq!(reply(run(&mut s, 7, "boss", ";rivals delete ann")), "Player `ann` has been deleted.");
}

#[test]
fn preview_handicap() {
    let mut s = two_players();
    run(&mut s, 40, "cat", ";rivals create 700 cat");
    run(&mut s, 50, "dan", ";rivals create 500 dan");
    assert_eq!(
        reply(handle_preview(&s, &words("preview ben cat"))),
        "Player ratings:\n• `ben`: 400%\n• `cat`: 700%\nHandicap: `cat` should start with 2 stock(s) and 0% extra damage."
    );
    assert_eq!(
        reply(run(&mut s, 1, "u", ";rivals preview cat ann")),
        "Player ratings:\n• `cat`: 700%\n• `ann`: 500%\nHandicap: `cat` should start with 1 stock(s) and 50% extra damage."
    );
    assert_eq!(
        reply(run(&mut s, 1, "u", ";rivals preview ann dan")),
        "Both `ann` and `dan` have equal ratings (500%). No handicap."
    );
    assert_eq!(reply(run(&mut s, 1, "u", ";rivals preview ann")), "Usage: preview <player1> <player2>");
    assert_eq!(reply(run(&mut s, 1, "u", ";rivals preview ann zed")), "Player `zed` not found.");
}

#[test]
fn list_highest_first() {
    let mut s = PersistentState::new();
    assert_eq!(reply(handle_list(&s).unwrap()), "No players registered yet.");
    run(&mut s, 10, "ann", ";rivals create 500 ann");
    run(&mut s, 20, "ben", ";rivals create 900 ben");
    run(&mut s, 30, "cy", ";rivals create 100 cy");
    assert_eq!(
        reply(run(&mut s, 1, "u", ";rivals list")),
        "Registered players:\n• `ben`: 900% (owner: <@20>)\n• `ann`: 500% (owner: <@10>)\n• `cy`: 100% (owner: <@30>)\n"
    );
}

#[test]
fn list_fails_without_owner() {
    let mut s = PersistentState::new();
    s.rivals_ratings.0.insert("ghost".to_string(), 100);
    match handle_list(&s) {
        Err(RivalsError::MissingOwner(name)) => assert_eq!(name, "ghost"),
        _ => panic!("expected a missing owner"),
    }
}

#[test]
fn subcommands_and_no_subcommand() {
    let mut s = PersistentState::new();
    assert_eq!(reply(run(&mut s, 1, "u", ";rivals")), "Please provide a subcommand. See help for usage.");
    assert_eq!(reply(run(&mut s, 1, "u", ";rivals   ")), "Please provide a subcommand. See help for usage.");
    assert_eq!(reply(run(&mut s, 1, "u", ";rivals dance")), "Unknown subcommand.");
    assert!(RivalsRating.handle(&message(1, "u", "rivals list"), &general(), &mut s, "Nick").is_none());
    let r = handle_subcommand(&mut s, &words("x"), "list", 1, "Nick", false).unwrap();
    assert_eq!(reply(r), "No players registered yet.");
}
