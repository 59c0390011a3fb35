//! Message helpers: the human-readable form of a message's markup, and
//! whether a message mentions one of the bot's roles.
use crate::text::{decimal, decimal_of, replace, replace_all};
use vstd::prelude::*;

verus! {

/// Name given to a mentioned role that the guild no longer has.
pub const UNKNOWN_ROLE: &'static str = "@UnknownRole";

/// Name given to a mentioned channel that the guild no longer has.
pub const UNKNOWN_CHANNEL: &'static str = "#UnknownChannel";

/// The markup for a mention of user `id`, in its nickname form or not.
pub open spec fn user_token(id: u64, with_nickname: bool) -> Seq<char> {
    seq!['<', '@'] + (if with_nickname {
        seq!['!']
    } else {
        Seq::empty()
    }) + decimal_of(id as nat) + seq!['>']
}

/// The markup for a mention of role `id`.
pub open spec fn role_token(id: u64) -> Seq<char> {
    seq!['<', '@', '&'] + decimal_of(id as nat) + seq!['>']
}

/// The markup for a mention of channel `id`.
pub open spec fn channel_token(id: u64) -> Seq<char> {
    seq!['<', '#'] + decimal_of(id as nat) + seq!['>']
}

/// How a mentioned role reads: `@` and its name, or a placeholder.
pub open spec fn role_label(name: Option<String>) -> Seq<char> {
    match name {
        Some(n) => seq!['@'] + n@,
        None => UNKNOWN_ROLE@,
    }
}

/// How a mentioned channel reads: `#` and its name, or a placeholder.
pub open spec fn channel_label(name: Option<String>) -> Seq<char> {
    match name {
        Some(n) => seq!['#'] + n@,
        None => UNKNOWN_CHANNEL@,
    }
}

/// Whether `subs` holds, in order, both mention forms of each user with the
/// user's name, then each role, then each channel, with what they read as.
pub open spec fn substitutions_for(
    subs: Seq<(Seq<char>, Seq<char>)>,
    users: Seq<(u64, String)>,
    roles: Seq<(u64, Option<String>)>,
    channels: Seq<(u64, Option<String>)>,
) -> bool {
    let u = users.len() as int;
    let ro = roles.len() as int;
    &&& subs.len() == 2 * u + ro + channels.len()
    &&& forall|i: int|
        0 <= i < u ==> #[trigger] subs[2 * i] == (user_token(users[i].0, true), users[i].1@) && subs[2
            * i + 1] == (user_token(users[i].0, false), users[i].1@)
    &&& forall|j: int| 0 <= j < ro ==> #[trigger] subs[2 * u + j] == (role_token(roles[j].0), role_label(roles[j].1))
    &&& forall|k: int|
        0 <= k < channels.len() ==> #[trigger] subs[2 * u + ro + k] == (
            channel_token(channels[k].0),
            channel_label(channels[k].1),
        )
}

/// `content` with each substitution of `subs` applied in turn.
pub open spec fn apply_substitutions(content: Seq<char>, subs: Seq<(Seq<char>, Seq<char>)>) -> Seq<char>
    decreases subs.len(),
{
    if subs.len() == 0 {
        content
    } else {
        replace_all(apply_substitutions(content, subs.drop_last()), subs.last().0, subs.last().1)
    }
}

/// Whether some role of `message_roles` is one of `my_roles`.
pub open spec fn shares_role(message_roles: Seq<u64>, my_roles: Seq<u64>) -> bool {
    exists|i: int| 0 <= i < message_roles.len() && my_roles.contains(#[trigger] message_roles[i])
}

fn token(start: &str, id: u64) -> (r: String)
    ensures
        r@ == start@ + decimal_of(id as nat) + seq!['>'],
{
    let mut s = start.to_owned();
    let d = decimal(id);
    s.append(d.as_str());
    s.append(">");
    proof {
        reveal_strlit(">");
    }
    s
}

fn labelled(mark: &str, name: &Option<String>, unknown: &str) -> (r: String)
    ensures
        r@ == match name {
            Some(n) => mark@ + n@,
            None => unknown@,
        },
{
    match name {
        Some(n) => {
            let mut s = mark.to_owned();
            s.append(n.as_str());
            s
        },
        None => unknown.to_owned(),
    }
}

/// The substitutions for a message's mentions: users with their names in the
/// guild, and roles and channels with their names where the guild still has
/// them.
pub fn mention_substitutions(
    users: &Vec<(u64, String)>,
    roles: &Vec<(u64, Option<String>)>,
    channels: &Vec<(u64, Option<String>)>,
) -> (r: Vec<(String, String)>)
    requires
        2 * users@.len() + roles@.len() + channels@.len() <= usize::MAX,
    ensures
        substitutions_for(r@.map_values(|p: (String, String)| (p.0@, p.1@)), users@, roles@, channels@),
{
    let mut subs: Vec<(String, String)> = Vec::new();
    let ghost u = users@.len() as int;
    let ghost ro = roles@.len() as int;
    let mut i: usize = 0;
    while i < users.len()
        invariant
            i <= users@.len(),
            subs@.len() == 2 * i,
            forall|t: int|
                0 <= t < i ==> (#[trigger] subs@[2 * t]).0@ == user_token(users@[t].0, true)
                    && subs@[2 * t].1@ == users@[t].1@ && subs@[2 * t + 1].0@ == user_token(users@[t].0, false)
                    && subs@[2 * t + 1].1@ == users@[t].1@,
        decreases users@.len() - i,
    {
        let (id, name) = (users[i].0, &users[i].1);
        let a = token("<@!", id);
        let b = token("<@", id);
        proof {
            reveal_strlit("<@!");
            reveal_strlit("<@");
        }
        let ghost before = subs@;
        assert(a@ =~= user_token(id, true));
        assert(b@ =~= user_token(id, false));
        subs.push((a, name.clone()));
        subs.push((b, name.clone()));
        assert forall|t: int| 0 <= t < 2 * i implies #[trigger] subs@[t] == before[t] by {}
        i = i + 1;
    }
    let mut j: usize = 0;
    while j < roles.len()
        invariant
            j <= roles@.len(),
            subs@.len() == 2 * u + j,
            u == users@.len(),
            forall|t: int|
                0 <= t < u ==> (#[trigger] subs@[2 * t]).0@ == user_token(users@[t].0, true)
                    && subs@[2 * t].1@ == users@[t].1@ && subs@[2 * t + 1].0@ == user_token(users@[t].0, false)
                    && subs@[2 * t + 1].1@ == users@[t].1@,
            forall|t: int|
                0 <= t < j ==> (#[trigger] subs@[2 * u + t]).0@ == role_token(roles@[t].0) && subs@[2 * u
                    + t].1@ == role_label(roles@[t].1),
        decreases roles@.len() - j,
    {
        let a = token("<@&", roles[j].0);
        proof {
            reveal_strlit("<@&");
        }
        let ghost before = subs@;
        assert(a@ =~= role_token(roles@[j as int].0));
        let b = labelled("@", &roles[j].1, UNKNOWN_ROLE);
        proof {
            reveal_strlit("@");
        }
        subs.push((a, b));
        assert forall|t: int| 0 <= t < 2 * u + j implies #[trigger] subs@[t] == before[t] by {}
        j = j + 1;
    }
    let mut k: usize = 0;
    while k < channels.len()
        invariant
            k <= channels@.len(),
            subs@.len() == 2 * u + ro + k,
            u == users@.len(),
            ro == roles@.len(),
            forall|t: int|
                0 <= t < u ==> (#[trigger] subs@[2 * t]).0@ == user_token(users@[t].0, true)
                    && subs@[2 * t].1@ == users@[t].1@ && subs@[2 * t + 1].0@ == user_token(users@[t].0, false)
                    && subs@[2 * t + 1].1@ == users@[t].1@,
            forall|t: int|
                0 <= t < ro ==> (#[trigger] subs@[2 * u + t]).0@ == role_token(roles@[t].0) && subs@[2 * u
                    + t].1@ == role_label(roles@[t].1),
            forall|t: int|
                0 <= t < k ==> (#[trigger] subs@[2 * u + ro + t]).0@ == channel_token(channels@[t].0)
                    && subs@[2 * u + ro + t].1@ == channel_label(channels@[t].1),
        decreases channels@.len() - k,
    {
        let a = token("<#", channels[k].0);
        proof {
            reveal_strlit("<#");
        }
        let ghost before = subs@;
        assert(a@ =~= channel_token(channels@[k as int].0));
        let b = labelled("#", &channels[k].1, UNKNOWN_CHANNEL);
        proof {
            reveal_strlit("#");
        }
        subs.push((a, b));
        assert forall|t: int| 0 <= t < 2 * u + ro + k implies #[trigger] subs@[t] == before[t] by {}
        k = k + 1;
    }
    proof {
        let v = subs@.map_values(|p: (String, String)| (p.0@, p.1@));
        assert forall|t: int| 0 <= t < u implies #[trigger] v[2 * t] == (user_token(users@[t].0, true), users@[t].1@) && v[2
            * t + 1] == (user_token(users@[t].0, false), users@[t].1@) by {
            assert(subs@[2 * t].0@ == user_token(users@[t].0, true));
        }
        assert forall|t: int| 0 <= t < ro implies #[trigger] v[2 * u + t] == (role_token(roles@[t].0), role_label(roles@[t].1)) by {
            assert(subs@[2 * u + t].0@ == role_token(roles@[t].0));
        }
        assert forall|t: int| 0 <= t < channels@.len() implies #[trigger] v[2 * u + ro + t] == (
            channel_token(channels@[t].0),
            channel_label(channels@[t].1),
        ) by {
            assert(subs@[2 * u + ro + t].0@ == channel_token(channels@[t].0));
        }
    }
    subs
}

/// `content` with every mention replaced by what it reads as: the names in
/// `users`, and the role and channel names or placeholders.
pub fn human_format_content(
    content: &str,
    users: &Vec<(u64, String)>,
    roles: &Vec<(u64, Option<String>)>,
    channels: &Vec<(u64, Option<String>)>,
) -> (r: String)
    requires
        2 * users@.len() + roles@.len() + channels@.len() <= usize::MAX,
    ensures
        exists|subs: Seq<(Seq<char>, Seq<char>)>|
            substitutions_for(subs, users@, roles@, channels@) && r@ == apply_substitutions(content@, subs),
{
    let subs = mention_substitutions(users, roles, channels);
    let ghost v = subs@.map_values(|p: (String, String)| (p.0@, p.1@));
    let mut text = content.to_owned();
    let mut i: usize = 0;
    while i < subs.len()
        invariant
            i <= subs@.len(),
            v == subs@.map_values(|p: (String, String)| (p.0@, p.1@)),
            substitutions_for(v, users@, roles@, channels@),
            text@ == apply_substitutions(content@, v.subrange(0, i as int)),
        decreases subs@.len() - i,
    {
        proof {
            let u = users@.len() as int;
            let ro = roles@.len() as int;
            let t = i as int;
            if t < 2 * u {
                let q = t / 2;
                assert(v[2 * q] == (user_token(users@[q].0, true), users@[q].1@));
                if t == 2 * q {
                } else {
                    assert(t == 2 * q + 1);
                }
            } else if t < 2 * u + ro {
                assert(v[2 * u + (t - 2 * u)] == (role_token(roles@[t - 2 * u].0), role_label(roles@[t - 2 * u].1)));
            } else {
                assert(v[2 * u + ro + (t - 2 * u - ro)] == (
                    channel_token(channels@[t - 2 * u - ro].0),
                    channel_label(channels@[t - 2 * u - ro].1),
                ));
            }
            assert(v[t].0.len() > 0);
        }
        let next = replace(text.as_str(), subs[i].0.as_str(), subs[i].1.as_str());
        proof {
            let s = v.subrange(0, i + 1);
            assert(s.drop_last() =~= v.subrange(0, i as int));
        }
        text = next;
        i = i + 1;
    }
    assert(v.subrange(0, v.len() as int) =~= v);
    text
}

/// Whether one of the roles a message mentions is one of the bot's roles.
pub fn mentions_my_role(message_roles: &Vec<u64>, my_roles: &Vec<u64>) -> (r: bool)
    ensures
        r == shares_role(message_roles@, my_roles@),
{
    let mut i: usize = 0;
    while i < message_roles.len()
        invariant
            i <= message_roles@.len(),
            forall|t: int| 0 <= t < i ==> !my_roles@.contains(#[trigger] message_roles@[t]),
        decreases message_roles@.len() - i,
    {
        let role = message_roles[i];
        let mut j: usize = 0;
        while j < my_roles.len()
            invariant
                j <= my_roles@.len(),
                i < message_roles@.len(),
                role == message_roles@[i as int],
                forall|t: int| 0 <= t < j ==> my_roles@[t] != role,
            decreases my_roles@.len() - j,
        {
            if my_roles[j] == role {
                assert(my_roles@.contains(role));
                return true;
            }
            j = j + 1;
        }
        i = i + 1;
    }
    false
}

/// Whether a message is addressed to the bot `my_id`: it mentions the bot,
/// or replies to a message of the bot's, or mentions one of the bot's roles
/// (`my_roles`, where the bot's roles in the guild are known).
pub open spec fn addressed_to(
    mentions_me: bool,
    replied_author: Option<u64>,
    my_id: u64,
    message_roles: Seq<u64>,
    my_roles: Option<Seq<u64>>,
) -> bool {
    mentions_me || replied_author == Some(my_id) || match my_roles {
        Some(roles) => shares_role(message_roles, roles),
        None => false,
    }
}

/// Whether a message is addressed to the bot. Where `mentions_me` holds, the
/// other arguments need not have been looked up.
pub fn is_to_me(
    mentions_me: bool,
    replied_author: Option<u64>,
    my_id: u64,
    message_roles: &Vec<u64>,
    my_roles: Option<&Vec<u64>>,
) -> (r: bool)
    ensures
        r == addressed_to(
            mentions_me,
            replied_author,
            my_id,
            message_roles@,
            match my_roles {
                Some(v) => Some(v@),
                None => None,
            },
        ),
{
    if mentions_me {
        return true;
    }
    if replied_author == Some(my_id) {
        return true;
    }
    match my_roles {
        Some(roles) => mentions_my_role(message_roles, roles),
        None => false,
    }
}

} // verus!
