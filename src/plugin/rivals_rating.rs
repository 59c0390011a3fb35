//! Ratings and handicaps for the game Rivals.
//!
//! Ratings are percentages of damage: the difference between two players'
//! ratings is the damage the stronger player starts with for an even match,
//! and every [`STOCK_VALUE`] percent of it is one stock. Ratings are only
//! updated between players at most [`MAX_DELTA`] percent apart. A player is
//! owned by the user who created it; only that user or a bot owner may
//! delete it, and only the loser's owner or a bot owner may report a match.
use crate::config::{is_owner_of, General};
use crate::event::{bot_cmd_args, Event};
use crate::persistent_state::{names_unique, PersistentState};
use crate::plugin::{name_of, PluginId};
use crate::text::{
    decimal, decimal_of, lowercase, lowercase_of, parse_usize, parse_usize_of, split_whitespace,
    words_of,
};
use vstd::prelude::*;

verus! {

broadcast use vstd::seq_lib::group_to_multiset_ensures;

/// A rating difference of this many percent is worth one stock.
pub const STOCK_VALUE: usize = 150;

/// Ratings further apart than this many percent are not updated.
pub const MAX_DELTA: usize = 300;

pub const NO_SUBCOMMAND: &'static str = "Please provide a subcommand. See help for usage.";
pub const UNKNOWN_SUBCOMMAND: &'static str = "Unknown subcommand.";
pub const CREATE_USAGE: &'static str = "Usage: create <initial_rating> [player_name]";
pub const INVALID_RATING: &'static str = "Invalid initial rating: must be an integer";
pub const DELETE_USAGE: &'static str = "Usage: delete <player_name>";
pub const NO_PLAYERS: &'static str = "No players registered yet.";
pub const PREVIEW_USAGE: &'static str = "Usage: preview <player1> <player2>";
pub const REPORT_USAGE: &'static str = "Usage: report <player1> beat <player2>";
pub const SAME_PLAYER: &'static str = "Winner and loser cannot be the same player.";
pub const TOO_FAR_APART: &'static str = "Player ratings are too far apart to update.";

pub const PLAYER: &'static str = "Player `";
pub const EXISTS: &'static str = "` already exists.";
pub const CREATED: &'static str = "` created with initial rating ";
pub const PERCENT_DOT: &'static str = "%.";
pub const NOT_FOUND: &'static str = "` not found.";
pub const DELETED: &'static str = "` has been deleted.";
pub const BOTH: &'static str = "Both `";
pub const AND: &'static str = "` and `";
pub const EQUAL: &'static str = "` have equal ratings (";
pub const NO_HANDICAP: &'static str = "%). No handicap.";
pub const RATINGS: &'static str = "Player ratings:\n• `";
pub const RATING_SEP: &'static str = "`: ";
pub const NEXT_PLAYER: &'static str = "%\n• `";
pub const HANDICAP: &'static str = "%\nHandicap: `";
pub const START: &'static str = "` should start with ";
pub const STOCKS: &'static str = " stock(s) and ";
pub const EXTRA: &'static str = "% extra damage.";
pub const LIST_HEADER: &'static str = "Registered players:\n";
pub const LIST_ITEM: &'static str = "• `";
pub const OWNER: &'static str = "% (owner: <@";
pub const LIST_END: &'static str = ">)\n";
pub const MATCH_WINNER: &'static str = "Match reported:\n• Winner `";
pub const ARROW: &'static str = "% → ";
pub const MATCH_LOSER: &'static str = "%\n• Loser `";
pub const PERCENT: &'static str = "%";

/// Manages rivals players and their ratings.
pub struct RivalsRating;

/// What a rivals command leads to.
pub enum RivalsAction {
    /// Post this reply; nothing changed.
    Reply(String),
    /// The state changed: save it, then post this reply.
    SaveAndReply(String),
    /// The author may not do this: answer with the permission-denied persona.
    PermissionDenied,
    /// A match between two players close enough in rating: compute their new
    /// ratings and record them with [`apply_match`].
    RateMatch { winner: String, winner_rating: usize, loser: String, loser_rating: usize },
}

/// [`RivalsAction`] over mathematical values.
pub enum RivalsOutcome {
    Reply(Seq<char>),
    SaveAndReply(Seq<char>),
    PermissionDenied,
    RateMatch { winner: Seq<char>, winner_rating: usize, loser: Seq<char>, loser_rating: usize },
}

impl View for RivalsAction {
    type V = RivalsOutcome;

    open spec fn view(&self) -> RivalsOutcome {
        match self {
            RivalsAction::Reply(s) => RivalsOutcome::Reply(s@),
            RivalsAction::SaveAndReply(s) => RivalsOutcome::SaveAndReply(s@),
            RivalsAction::PermissionDenied => RivalsOutcome::PermissionDenied,
            RivalsAction::RateMatch { winner, winner_rating, loser, loser_rating } =>
                RivalsOutcome::RateMatch {
                winner: winner@,
                winner_rating: *winner_rating,
                loser: loser@,
                loser_rating: *loser_rating,
            },
        }
    }
}

/// Why the player list could not be made.
#[derive(Debug)]
pub enum RivalsError {
    /// This player has a rating but no owner.
    MissingOwner(String),
}

/// The views of the strings of `v`.
pub open spec fn views(v: Seq<String>) -> Seq<Seq<char>> {
    v.map_values(|w: String| w@)
}

/// The number `n` in decimal.
pub open spec fn dec(n: usize) -> Seq<char> {
    decimal_of(n as nat)
}

/// "Player `name`" followed by `tail`.
pub open spec fn player_text(name: Seq<char>, tail: Seq<char>) -> Seq<char> {
    PLAYER@ + name + tail
}

/// Whether the author may act on a player owned as `owners` says: a bot
/// owner may, and so may the player's registered owner.
pub open spec fn may_act(owners: Map<Seq<char>, u64>, name: Seq<char>, author: u64, is_owner: bool) -> bool {
    is_owner || (owners.contains_key(name) && owners[name] == author)
}

/// The name a new player gets: the one given, or the author's.
pub open spec fn create_name(words: Seq<Seq<char>>, author_nick: Seq<char>) -> Seq<char> {
    if words.len() >= 3 {
        words[2]
    } else {
        author_nick
    }
}

/// The outcome of `create <initial_rating> [player_name]`; `words[0]` is the
/// subcommand.
pub open spec fn create_outcome(
    ratings: Map<Seq<char>, usize>,
    words: Seq<Seq<char>>,
    author_nick: Seq<char>,
) -> RivalsOutcome {
    if words.len() < 2 {
        RivalsOutcome::Reply(CREATE_USAGE@)
    } else {
        match parse_usize_of(words[1]) {
            None => RivalsOutcome::Reply(INVALID_RATING@),
            Some(rating) => {
                let name = create_name(words, author_nick);
                if ratings.contains_key(name) {
                    RivalsOutcome::Reply(player_text(name, EXISTS@))
                } else {
                    RivalsOutcome::SaveAndReply(
                        player_text(name, CREATED@) + dec(rating) + PERCENT_DOT@,
                    )
                }
            },
        }
    }
}

/// The outcome of `delete <player_name>`.
pub open spec fn delete_outcome(
    ratings: Map<Seq<char>, usize>,
    owners: Map<Seq<char>, u64>,
    words: Seq<Seq<char>>,
    author: u64,
    is_owner: bool,
) -> RivalsOutcome {
    if words.len() < 2 {
        RivalsOutcome::Reply(DELETE_USAGE@)
    } else if !ratings.contains_key(words[1]) {
        RivalsOutcome::Reply(player_text(words[1], NOT_FOUND@))
    } else if !may_act(owners, words[1], author, is_owner) {
        RivalsOutcome::PermissionDenied
    } else {
        RivalsOutcome::SaveAndReply(player_text(words[1], DELETED@))
    }
}

/// The outcome of `preview <player1> <player2>`.
pub open spec fn preview_outcome(ratings: Map<Seq<char>, usize>, words: Seq<Seq<char>>) -> RivalsOutcome {
    if words.len() < 3 {
        RivalsOutcome::Reply(PREVIEW_USAGE@)
    } else {
        let p1 = words[1];
        let p2 = words[2];
        if !ratings.contains_key(p1) {
            RivalsOutcome::Reply(player_text(p1, NOT_FOUND@))
        } else if !ratings.contains_key(p2) {
            RivalsOutcome::Reply(player_text(p2, NOT_FOUND@))
        } else {
            let r1 = ratings[p1];
            let r2 = ratings[p2];
            if r1 == r2 {
                RivalsOutcome::Reply(BOTH@ + p1 + AND@ + p2 + EQUAL@ + dec(r1) + NO_HANDICAP@)
            } else {
                let higher = if r1 > r2 {
                    p1
                } else {
                    p2
                };
                let diff = (if r1 > r2 {
                    r1 - r2
                } else {
                    r2 - r1
                }) as usize;
                RivalsOutcome::Reply(
                    RATINGS@ + p1 + RATING_SEP@ + dec(r1) + NEXT_PLAYER@ + p2 + RATING_SEP@ + dec(r2)
                        + HANDICAP@ + higher + START@ + dec((diff / STOCK_VALUE) as usize) + STOCKS@
                        + dec((diff % STOCK_VALUE) as usize) + EXTRA@,
                )
            }
        }
    }
}

/// The outcome of `report <player1> beat <player2>`, where `keyword` is the
/// lower-case form of the word between the players.
pub open spec fn report_outcome(
    ratings: Map<Seq<char>, usize>,
    owners: Map<Seq<char>, u64>,
    words: Seq<Seq<char>>,
    keyword: Seq<char>,
    author: u64,
    is_owner: bool,
) -> RivalsOutcome {
    if words.len() < 4 || keyword != "beat"@ {
        RivalsOutcome::Reply(REPORT_USAGE@)
    } else {
        let winner = words[1];
        let loser = words[3];
        if winner == loser {
            RivalsOutcome::Reply(SAME_PLAYER@)
        } else if !ratings.contains_key(winner) {
            RivalsOutcome::Reply(player_text(winner, NOT_FOUND@))
        } else if !ratings.contains_key(loser) {
            RivalsOutcome::Reply(player_text(loser, NOT_FOUND@))
        } else if !may_act(owners, loser, author, is_owner) {
            RivalsOutcome::PermissionDenied
        } else {
            let w = ratings[winner];
            let l = ratings[loser];
            let diff = if w > l {
                w - l
            } else {
                l - w
            };
            if diff > MAX_DELTA {
                RivalsOutcome::Reply(TOO_FAR_APART@)
            } else {
                RivalsOutcome::RateMatch { winner, winner_rating: w, loser, loser_rating: l }
            }
        }
    }
}

/// The line of the player list for one player.
pub open spec fn list_line(name: Seq<char>, rating: usize, owner: u64) -> Seq<char> {
    LIST_ITEM@ + name + RATING_SEP@ + dec(rating) + OWNER@ + decimal_of(owner as nat) + LIST_END@
}

/// The lines of the player list for `rows`, in order.
pub open spec fn list_lines(rows: Seq<(Seq<char>, usize, u64)>) -> Seq<char>
    decreases rows.len(),
{
    if rows.len() == 0 {
        Seq::empty()
    } else {
        list_lines(rows.drop_last()) + list_line(rows.last().0, rows.last().1, rows.last().2)
    }
}

/// Whether each row of `rows` is a player of `ratings` with its rating and
/// owner, no player twice, highest rating first.
pub open spec fn rows_listed(
    rows: Seq<(Seq<char>, usize, u64)>,
    ratings: Map<Seq<char>, usize>,
    owners: Map<Seq<char>, u64>,
) -> bool {
    &&& forall|i: int|
        0 <= i < rows.len() ==> {
            let (name, rating, owner) = #[trigger] rows[i];
            ratings.contains_key(name) && ratings[name] == rating && owners.contains_key(name)
                && owners[name] == owner
        }
    &&& forall|i: int, j: int| 0 <= i < j < rows.len() ==> (#[trigger] rows[i]).1 >= (#[trigger] rows[j]).1
    &&& forall|i: int, j: int| 0 <= i < j < rows.len() ==> (#[trigger] rows[i]).0 != (#[trigger] rows[j]).0
}

/// The text of the report of a match that moved the winner from `w` to `nw`
/// and the loser from `l` to `nl`.
pub open spec fn match_text(winner: Seq<char>, w: usize, nw: usize, loser: Seq<char>, l: usize, nl: usize) -> Seq<
    char,
> {
    MATCH_WINNER@ + winner + RATING_SEP@ + dec(w) + ARROW@ + dec(nw) + MATCH_LOSER@ + loser
        + RATING_SEP@ + dec(l) + ARROW@ + dec(nl) + PERCENT@
}

/// Relies on `slice::sort_unstable_by_key`: the same pairs, ordered by their
/// first element.
#[verifier::external_body]
fn sort_by_rating(v: &mut Vec<(usize, usize)>)
    ensures
        final(v)@.to_multiset() == old(v)@.to_multiset(),
        forall|i: int, j: int| 0 <= i < j < final(v)@.len() ==> (#[trigger] final(v)@[i]).0 <= (#[trigger] final(v)@[j]).0,
{
    v.sort_unstable_by_key(|p| p.0)
}

fn push_dec(s: &mut String, n: usize)
    ensures
        final(s)@ == old(s)@ + dec(n),
{
    let d = decimal(n as u64);
    s.append(d.as_str());
}

fn player_reply(name: &str, tail: &str) -> (r: String)
    ensures
        r@ == player_text(name@, tail@),
{
    let mut s = PLAYER.to_owned();
    s.append(name);
    s.append(tail);
    s
}

/// Handles `create <initial_rating> [player_name]` for the author `author_id`,
/// whose name in the guild is `author_nick`.
pub fn handle_create(state: &mut PersistentState, words: &Vec<String>, author_id: u64, author_nick: &str) -> (r: RivalsAction)
    requires
        old(state).wf(),
    ensures
        final(state).wf(),
        r@ == create_outcome(old(state).rivals_ratings.0@, views(words@), author_nick@),
        final(state).vc_notify == old(state).vc_notify,
        r is SaveAndReply ==> ({
            let name = create_name(views(words@), author_nick@);
            &&& final(state).rivals_ratings.0@ == old(state).rivals_ratings.0@.insert(
                name,
                parse_usize_of(views(words@)[1])->Some_0,
            )
            &&& final(state).rivals_ratings_owners.0@ == old(state).rivals_ratings_owners.0@.insert(name, author_id)
        }),
        !(r is SaveAndReply) ==> final(state).rivals_ratings.0@ == old(state).rivals_ratings.0@
            && final(state).rivals_ratings_owners.0@ == old(state).rivals_ratings_owners.0@,
{
    let ghost w = views(words@);
    if words.len() < 2 {
        return RivalsAction::Reply(CREATE_USAGE.to_owned());
    }
    let rating = match parse_usize(words[1].as_str()) {
        Some(r) => r,
        None => return RivalsAction::Reply(INVALID_RATING.to_owned()),
    };
    let name = if words.len() >= 3 {
        words[2].clone()
    } else {
        author_nick.to_owned()
    };
    assert(name@ == create_name(w, author_nick@));
    if state.rivals_ratings.0.contains_key(name.as_str()) {
        return RivalsAction::Reply(player_reply(name.as_str(), EXISTS));
    }
    let mut reply = player_reply(name.as_str(), CREATED);
    push_dec(&mut reply, rating);
    reply.append(PERCENT_DOT);
    state.rivals_ratings.0.insert(name.clone(), rating);
    state.rivals_ratings_owners.0.insert(name, author_id);
    RivalsAction::SaveAndReply(reply)
}

/// Handles `delete <player_name>`; `is_owner` tells whether the author owns
/// the bot.
pub fn handle_delete(state: &mut PersistentState, words: &Vec<String>, author_id: u64, is_owner: bool) -> (r: RivalsAction)
    requires
        old(state).wf(),
    ensures
        final(state).wf(),
        r@ == delete_outcome(
            old(state).rivals_ratings.0@,
            old(state).rivals_ratings_owners.0@,
            views(words@),
            author_id,
            is_owner,
        ),
        final(state).vc_notify == old(state).vc_notify,
        r is SaveAndReply ==> final(state).rivals_ratings.0@ == old(state).rivals_ratings.0@.remove(
            views(words@)[1],
        ) && final(state).rivals_ratings_owners.0@ == old(state).rivals_ratings_owners.0@.remove(
            views(words@)[1],
        ),
        !(r is SaveAndReply) ==> final(state).rivals_ratings.0@ == old(state).rivals_ratings.0@
            && final(state).rivals_ratings_owners.0@ == old(state).rivals_ratings_owners.0@,
{
    if words.len() < 2 {
        return RivalsAction::Reply(DELETE_USAGE.to_owned());
    }
    let name = words[1].as_str();
    if !state.rivals_ratings.0.contains_key(name) {
        return RivalsAction::Reply(player_reply(name, NOT_FOUND));
    }
    if !is_owner {
        match state.rivals_ratings_owners.0.get(name) {
            Some(owner) => if owner != author_id {
                return RivalsAction::PermissionDenied;
            },
            None => return RivalsAction::PermissionDenied,
        }
    }
    state.rivals_ratings.0.remove(name);
    state.rivals_ratings_owners.0.remove(name);
    RivalsAction::SaveAndReply(player_reply(name, DELETED))
}

/// Handles `preview <player1> <player2>`: both ratings and the handicap of
/// the stronger player.
pub fn handle_preview(state: &PersistentState, words: &Vec<String>) -> (r: RivalsAction)
    requires
        state.wf(),
    ensures
        r@ == preview_outcome(state.rivals_ratings.0@, views(words@)),
{
    if words.len() < 3 {
        return RivalsAction::Reply(PREVIEW_USAGE.to_owned());
    }
    let p1 = words[1].as_str();
    let p2 = words[2].as_str();
    let r1 = match state.rivals_ratings.0.get(p1) {
        Some(r) => r,
        None => return RivalsAction::Reply(player_reply(p1, NOT_FOUND)),
    };
    let r2 = match state.rivals_ratings.0.get(p2) {
        Some(r) => r,
        None => return RivalsAction::Reply(player_reply(p2, NOT_FOUND)),
    };
    if r1 == r2 {
        let mut s = BOTH.to_owned();
        s.append(p1);
        s.append(AND);
        s.append(p2);
        s.append(EQUAL);
        push_dec(&mut s, r1);
        s.append(NO_HANDICAP);
        return RivalsAction::Reply(s);
    }
    let (higher, diff) = if r1 > r2 {
        (p1, r1 - r2)
    } else {
        (p2, r2 - r1)
    };
    let mut s = RATINGS.to_owned();
    s.append(p1);
    s.append(RATING_SEP);
    push_dec(&mut s, r1);
    s.append(NEXT_PLAYER);
    s.append(p2);
    s.append(RATING_SEP);
    push_dec(&mut s, r2);
    s.append(HANDICAP);
    s.append(higher);
    s.append(START);
    push_dec(&mut s, diff / STOCK_VALUE);
    s.append(STOCKS);
    push_dec(&mut s, diff % STOCK_VALUE);
    s.append(EXTRA);
    RivalsAction::Reply(s)
}

/// Handles `report <player1> beat <player2>`, with `keyword` the lower-case
/// form of the word between the players (empty when there are too few words).
pub fn handle_report_keyword(
    state: &PersistentState,
    words: &Vec<String>,
    keyword: &str,
    author_id: u64,
    is_owner: bool,
) -> (r: RivalsAction)
    requires
        state.wf(),
    ensures
        r@ == report_outcome(
            state.rivals_ratings.0@,
            state.rivals_ratings_owners.0@,
            views(words@),
            keyword@,
            author_id,
            is_owner,
        ),
{
    let beat = "beat".to_owned();
    if words.len() < 4 || keyword.to_owned() != beat {
        return RivalsAction::Reply(REPORT_USAGE.to_owned());
    }
    let winner = words[1].as_str();
    let loser = words[3].as_str();
    if words[1] == words[3] {
        return RivalsAction::Reply(SAME_PLAYER.to_owned());
    }
    let w = match state.rivals_ratings.0.get(winner) {
        Some(r) => r,
        None => return RivalsAction::Reply(player_reply(winner, NOT_FOUND)),
    };
    let l = match state.rivals_ratings.0.get(loser) {
        Some(r) => r,
        None => return RivalsAction::Reply(player_reply(loser, NOT_FOUND)),
    };
    if !is_owner {
        match state.rivals_ratings_owners.0.get(loser) {
            Some(owner) => if owner != author_id {
                return RivalsAction::PermissionDenied;
            },
            None => return RivalsAction::PermissionDenied,
        }
    }
    let diff = if w > l {
        w - l
    } else {
        l - w
    };
    if diff > MAX_DELTA {
        return RivalsAction::Reply(TOO_FAR_APART.to_owned());
    }
    RivalsAction::RateMatch {
        winner: winner.to_owned(),
        winner_rating: w,
        loser: loser.to_owned(),
        loser_rating: l,
    }
}

/// Handles `report <player1> beat <player2>`; the word between the players
/// is matched without regard to case.
pub fn handle_report(state: &PersistentState, words: &Vec<String>, author_id: u64, is_owner: bool) -> (r: RivalsAction)
    requires
        state.wf(),
    ensures
        r@ == report_outcome(
            state.rivals_ratings.0@,
            state.rivals_ratings_owners.0@,
            views(words@),
            if words@.len() >= 4 {
                lowercase_of(words@[2]@)
            } else {
                Seq::empty()
            },
            author_id,
            is_owner,
        ),
{
    let keyword = if words.len() >= 4 {
        lowercase(words[2].as_str())
    } else {
        String::new()
    };
    handle_report_keyword(state, words, keyword.as_str(), author_id, is_owner)
}

/// Records the ratings computed for a reported match, and returns the
/// report's text.
pub fn apply_match(
    state: &mut PersistentState,
    winner: &str,
    winner_rating: usize,
    new_winner: usize,
    loser: &str,
    loser_rating: usize,
    new_loser: usize,
) -> (r: String)
    requires
        old(state).wf(),
    ensures
        final(state).wf(),
        final(state).rivals_ratings.0@ == old(state).rivals_ratings.0@.insert(winner@, new_winner).insert(
            loser@,
            new_loser,
        ),
        final(state).rivals_ratings_owners == old(state).rivals_ratings_owners,
        final(state).vc_notify == old(state).vc_notify,
        r@ == match_text(winner@, winner_rating, new_winner, loser@, loser_rating, new_loser),
{
    state.rivals_ratings.0.insert(winner.to_owned(), new_winner);
    state.rivals_ratings.0.insert(loser.to_owned(), new_loser);
    let mut s = MATCH_WINNER.to_owned();
    s.append(winner);
    s.append(RATING_SEP);
    push_dec(&mut s, winner_rating);
    s.append(ARROW);
    push_dec(&mut s, new_winner);
    s.append(MATCH_LOSER);
    s.append(loser);
    s.append(RATING_SEP);
    push_dec(&mut s, loser_rating);
    s.append(ARROW);
    push_dec(&mut s, new_loser);
    s.append(PERCENT);
    s
}

/// The outcome of subcommand `sub` (in lower case) with arguments `words`,
/// for every subcommand but `list`.
pub open spec fn command_outcome(
    ratings: Map<Seq<char>, usize>,
    owners: Map<Seq<char>, u64>,
    words: Seq<Seq<char>>,
    sub: Seq<char>,
    author: u64,
    author_nick: Seq<char>,
    is_owner: bool,
) -> RivalsOutcome {
    if sub == "create"@ {
        create_outcome(ratings, words, author_nick)
    } else if sub == "delete"@ {
        delete_outcome(ratings, owners, words, author, is_owner)
    } else if sub == "preview"@ {
        preview_outcome(ratings, words)
    } else if sub == "report"@ {
        report_outcome(
            ratings,
            owners,
            words,
            if words.len() >= 4 {
                lowercase_of(words[2])
            } else {
                Seq::empty()
            },
            author,
            is_owner,
        )
    } else {
        RivalsOutcome::Reply(UNKNOWN_SUBCOMMAND@)
    }
}

/// Whether `r` is a right answer to `list`: the no-players reply when there
/// are none; an error naming a player without owner exactly when there is
/// one; otherwise the header and one line per player, highest rating first.
pub open spec fn list_result(
    ratings: Map<Seq<char>, usize>,
    owners: Map<Seq<char>, u64>,
    r: Result<RivalsAction, RivalsError>,
) -> bool {
    &&& ratings == Map::<Seq<char>, usize>::empty() ==> (r matches Ok(a) && a@ == RivalsOutcome::Reply(NO_PLAYERS@))
    &&& r is Err <==> exists|k: Seq<char>| #[trigger] ratings.contains_key(k) && !owners.contains_key(k)
    &&& r matches Err(RivalsError::MissingOwner(n)) ==> ratings.contains_key(n@) && !owners.contains_key(n@)
    &&& (r is Ok && ratings != Map::<Seq<char>, usize>::empty()) ==> exists|rows: Seq<(Seq<char>, usize, u64)>| {
        &&& rows_listed(rows, ratings, owners)
        &&& forall|k: Seq<char>| #[trigger] ratings.contains_key(k) ==> exists|i: int| 0 <= i < rows.len() && (#[trigger] rows[i]).0 == k
        &&& r matches Ok(a) && a@ == RivalsOutcome::Reply(LIST_HEADER@ + list_lines(rows))
    }
}

/// Handles `list`: every player with rating and owner, highest rating first.
/// Fails when a player has no owner.
pub fn handle_list(state: &PersistentState) -> (r: Result<RivalsAction, RivalsError>)
    requires
        state.wf(),
    ensures
        list_result(state.rivals_ratings.0@, state.rivals_ratings_owners.0@, r),
{
    let ghost ratings = state.rivals_ratings.0@;
    let ghost owners = state.rivals_ratings_owners.0@;
    if state.rivals_ratings.0.is_empty() {
        proof {
            assert forall|k: Seq<char>| !(#[trigger] ratings.contains_key(k)) by {}
        }
        return Ok(RivalsAction::Reply(NO_PLAYERS.to_owned()));
    }
    let entries = state.rivals_ratings.0.entries();
    let n = entries.len();
    let mut keys: Vec<(usize, usize)> = Vec::new();
    let mut i: usize = 0;
    while i < n
        invariant
            state.wf(),
            ratings == state.rivals_ratings.0@,
            owners == state.rivals_ratings_owners.0@,
            forall|j: int| 0 <= j < entries@.len() ==> ratings.contains_key((#[trigger] entries@[j]).0@),
            n == entries@.len(),
            i <= n,
            keys@.len() == i,
            forall|j: int| 0 <= j < i ==> #[trigger] keys@[j] == (entries@[j].1, j as usize),
            forall|j: int| 0 <= j < i ==> owners.contains_key((#[trigger] entries@[j]).0@),
        decreases n - i,
    {
        let name = entries[i].0.as_str();
        if !state.rivals_ratings_owners.0.contains_key(name) {
            assert(ratings.contains_key(entries@[i as int].0@));
            return Err(RivalsError::MissingOwner(entries[i].0.clone()));
        }
        keys.push((entries[i].1, i));
        i = i + 1;
    }
    proof {
        assert forall|k: Seq<char>| #[trigger] ratings.contains_key(k) implies owners.contains_key(k) by {
            let j = choose|j: int| 0 <= j < entries@.len() && (#[trigger] entries@[j]).0@ == k;
        }
    }
    let ghost unsorted = keys@;
    sort_by_rating(&mut keys);
    proof {
        assert forall|t: int| 0 <= t < keys@.len() implies ({
            let x = #[trigger] keys@[t];
            x.1 < n && x == (entries@[x.1 as int].1, x.1)
        }) by {
            let x = keys@[t];
            assert(keys@.contains(x));
            assert(keys@.to_multiset().count(x) > 0);
            assert(unsorted.to_multiset().count(x) > 0);
            assert(unsorted.contains(x));
            let j = choose|j: int| 0 <= j < unsorted.len() && unsorted[j] == x;
        }
        assert(keys@.len() == unsorted.len()) by {
            unsorted.to_multiset_ensures();
            keys@.to_multiset_ensures();
        }
        assert forall|a: int, b: int| 0 <= a < unsorted.len() && 0 <= b < unsorted.len() && a != b implies unsorted[a] != unsorted[b] by {
            assert(unsorted[a].1 == a as usize && unsorted[b].1 == b as usize);
        }
        assert(unsorted.no_duplicates());
        unsorted.lemma_multiset_has_no_duplicates();
        keys@.lemma_multiset_has_no_duplicates_conv();
    }
    let mut text = LIST_HEADER.to_owned();
    let ghost mut rows: Seq<(Seq<char>, usize, u64)> = Seq::empty();
    let mut t: usize = n;
    while t > 0
        invariant
            state.wf(),
            ratings == state.rivals_ratings.0@,
            owners == state.rivals_ratings_owners.0@,
            n == entries@.len(),
            n == keys@.len(),
            names_unique(entries@),
            keys@.no_duplicates(),
            t <= n,
            rows.len() == n - t,
            forall|u: int| 0 <= u < keys@.len() ==> ({
                let x = #[trigger] keys@[u];
                x.1 < n && x == (entries@[x.1 as int].1, x.1)
            }),
            forall|a: int, b: int| 0 <= a < b < keys@.len() ==> (#[trigger] keys@[a]).0 <= (#[trigger] keys@[b]).0,
            forall|j: int| 0 <= j < n ==> owners.contains_key((#[trigger] entries@[j]).0@),
            forall|u: int| 0 <= u < rows.len() ==> {
                let x = keys@[n - 1 - u];
                let row = #[trigger] rows[u];
                &&& row.0 == entries@[x.1 as int].0@
                &&& row.1 == x.0
                &&& row.2 == owners[row.0]
            },
            text@ == LIST_HEADER@ + list_lines(rows),
        decreases t,
    {
        let (rating, idx) = keys[t - 1];
        let name = entries[idx].0.as_str();
        let owner = match state.rivals_ratings_owners.0.get(name) {
            Some(o) => o,
            None => 0,
        };
        text.append(LIST_ITEM);
        text.append(name);
        text.append(RATING_SEP);
        push_dec(&mut text, rating);
        text.append(OWNER);
        let o = decimal(owner);
        text.append(o.as_str());
        text.append(LIST_END);
        proof {
            let row = (name@, rating, owner);
            let old_rows = rows;
            rows = rows.push(row);
            assert(rows.drop_last() =~= old_rows);
        }
        t = t - 1;
    }
    proof {
        assert forall|a: int, b: int| 0 <= a < b < rows.len() implies (#[trigger] rows[a]).1 >= (#[trigger] rows[b]).1 by {
            assert(keys@[n - 1 - b].0 <= keys@[n - 1 - a].0);
        }
        assert forall|u: int| 0 <= u < rows.len() implies ({
            let (name, rating, owner) = #[trigger] rows[u];
            ratings.contains_key(name) && ratings[name] == rating && owners.contains_key(name)
                && owners[name] == owner
        }) by {
            let x = keys@[n - 1 - u];
            assert(keys@[n - 1 - u] == (entries@[x.1 as int].1, x.1));
        }
        assert forall|k: Seq<char>| #[trigger] ratings.contains_key(k) implies exists|i: int| 0 <= i < rows.len() && (#[trigger] rows[i]).0 == k by {
            let j = choose|j: int| 0 <= j < entries@.len() && (#[trigger] entries@[j]).0@ == k;
            let x = unsorted[j];
            assert(unsorted.contains(x));
            assert(unsorted.to_multiset().count(x) > 0);
            assert(keys@.to_multiset().count(x) > 0);
            assert(keys@.contains(x));
            let p = choose|p: int| 0 <= p < keys@.len() && keys@[p] == x;
            assert(rows[n - 1 - p].0 == k);
        }
        assert forall|a: int, b: int| 0 <= a < b < rows.len() implies (#[trigger] rows[a]).0 != (#[trigger] rows[b]).0 by {
            let xa = keys@[n - 1 - a];
            let xb = keys@[n - 1 - b];
            assert(xa != xb);
            assert(xa == (entries@[xa.1 as int].1, xa.1));
            assert(xb == (entries@[xb.1 as int].1, xb.1));
        }
        assert(rows_listed(rows, ratings, owners));
    }
    Ok(RivalsAction::Reply(text))
}

/// Handles subcommand `sub`, already in lower case; `words[0]` is the
/// subcommand as written.
pub fn handle_subcommand(
    state: &mut PersistentState,
    words: &Vec<String>,
    sub: &str,
    author_id: u64,
    author_nick: &str,
    is_owner: bool,
) -> (r: Result<RivalsAction, RivalsError>)
    requires
        old(state).wf(),
    ensures
        final(state).wf(),
        final(state).vc_notify == old(state).vc_notify,
        sub@ == "list"@ ==> list_result(old(state).rivals_ratings.0@, old(state).rivals_ratings_owners.0@, r),
        sub@ != "list"@ ==> (r matches Ok(a) && a@ == command_outcome(
            old(state).rivals_ratings.0@,
            old(state).rivals_ratings_owners.0@,
            views(words@),
            sub@,
            author_id,
            author_nick@,
            is_owner,
        )),
        !(r matches Ok(RivalsAction::SaveAndReply(_))) ==> final(state).rivals_ratings.0@ == old(state).rivals_ratings.0@
            && final(state).rivals_ratings_owners.0@ == old(state).rivals_ratings_owners.0@,
{
    let s = sub.to_owned();
    proof {
        reveal_strlit("create");
        reveal_strlit("delete");
        reveal_strlit("list");
        reveal_strlit("preview");
        reveal_strlit("report");
        assert("create"@.len() != "list"@.len());
        assert("delete"@.len() != "list"@.len());
    }
    if s == "create".to_owned() {
        Ok(handle_create(state, words, author_id, author_nick))
    } else if s == "delete".to_owned() {
        Ok(handle_delete(state, words, author_id, is_owner))
    } else if s == "list".to_owned() {
        handle_list(state)
    } else if s == "preview".to_owned() {
        Ok(handle_preview(state, words))
    } else if s == "report".to_owned() {
        Ok(handle_report(state, words, author_id, is_owner))
    } else {
        Ok(RivalsAction::Reply(UNKNOWN_SUBCOMMAND.to_owned()))
    }
}

impl RivalsRating {
    pub fn name(&self) -> (r: &'static str)
        ensures
            r@ == name_of(PluginId::RivalsRating),
    {
        PluginId::RivalsRating.name()
    }

    pub fn usage(&self, prefix: &str) -> (r: Option<String>)
        ensures
            match r {
                Some(u) => crate::plugin::usage_of(PluginId::RivalsRating, prefix@) == Some(u@),
                None => false,
            },
    {
        PluginId::RivalsRating.usage(prefix)
    }

    /// Handles the rivals command: `None` when `event` is not that command.
    /// The subcommand is matched without regard to case. `author_nick` is the
    /// author's name in the guild, the default name of a new player.
    pub fn handle(
        &self,
        event: &Event,
        general: &General,
        state: &mut PersistentState,
        author_nick: &str,
    ) -> (r: Option<Result<RivalsAction, RivalsError>>)
        requires
            old(state).wf(),
        ensures
            final(state).wf(),
            final(state).vc_notify == old(state).vc_notify,
            match event {
                Event::Message(m) => match bot_cmd_args(
                    m.content@,
                    general.command_prefix@,
                    name_of(PluginId::RivalsRating),
                ) {
                    Some(args) => {
                        let words = words_of(args);
                        &&& r is Some
                        &&& words.len() == 0 ==> (r matches Some(Ok(a)) && a@ == RivalsOutcome::Reply(NO_SUBCOMMAND@))
                        &&& (words.len() > 0 && lowercase_of(words[0]) == "list"@) ==> (r matches Some(res) && list_result(
                            old(state).rivals_ratings.0@,
                            old(state).rivals_ratings_owners.0@,
                            res,
                        ))
                        &&& (words.len() > 0 && lowercase_of(words[0]) != "list"@) ==> (r matches Some(Ok(a)) && a@ == command_outcome(
                            old(state).rivals_ratings.0@,
                            old(state).rivals_ratings_owners.0@,
                            words,
                            lowercase_of(words[0]),
                            m.author_id,
                            author_nick@,
                            is_owner_of(general.bot_owners@, m.author_name@),
                        ))
                    },
                    None => r is None,
                },
                _ => r is None,
            },
            !(r matches Some(Ok(RivalsAction::SaveAndReply(_)))) ==> final(state).rivals_ratings.0@ == old(state).rivals_ratings.0@
                && final(state).rivals_ratings_owners.0@ == old(state).rivals_ratings_owners.0@,
    {
        let (msg, args) = match event.is_bot_cmd(general.command_prefix.as_str(), self.name()) {
            Some(found) => found,
            None => return None,
        };
        let words = split_whitespace(args);
        if words.len() == 0 {
            return Some(Ok(RivalsAction::Reply(NO_SUBCOMMAND.to_owned())));
        }
        assert(views(words@) =~= words_of(args@));
        let sub = lowercase(words[0].as_str());
        let is_owner = general.is_from_owner(msg.author_name.as_str());
        Some(handle_subcommand(state, &words, sub.as_str(), msg.author_id, author_nick, is_owner))
    }
}

} // verus!
