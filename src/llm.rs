//! The context packer: turns a channel's history and a persona template into
//! the ordered list of messages sent to the language model, within a budget.
use crate::text::{replace, replace_all};
use crate::volatile_state::HistoryEntry;
use vstd::prelude::*;
use vstd::utf8::encode_utf8;

verus! {

/// Replies of at least this many bytes are replaced by [`TOO_LONG_REPLY`].
pub const REPLY_LIMIT_BYTES: usize = 1900;

/// What is posted in place of a reply that is too long to send.
pub const TOO_LONG_REPLY: &'static str = "I blabbed too long and my message was longer than the discord post limit and paradigm didn't implement a solution to cut a post up into multiple messages";

/// Who speaks in a message of the conversation sent to the model.
#[derive(Clone, Copy, Debug, PartialEq, Eq, Structural)]
pub enum ChatMessageRole {
    System,
    User,
    Assistant,
}

/// One message of the conversation sent to the model.
pub struct ChatMessage {
    pub role: ChatMessageRole,
    pub content: String,
}

/// The generation settings that the packer reads.
pub struct LlmSettings {
    pub model_name: String,
    /// Persona template; `{{bot}}` and `{{user}}` stand for the bot's name and
    /// the name of the last speaker.
    pub system: String,
    /// Context budget, in estimated tokens.
    pub context_size: usize,
}

/// A chat request to the model, apart from its sampling temperature.
pub struct LlmChatRequest {
    pub model: String,
    pub stream: bool,
    pub messages: Vec<ChatMessage>,
    pub num_ctx: usize,
}

/// Why no request could be built.
#[derive(Clone, Copy, Debug, PartialEq, Eq, Structural)]
pub enum LlmError {
    /// The channel has no history, so there is no one to answer.
    NoHistory,
}

/// Number of bytes in the UTF-8 encoding of `s`.
pub open spec fn byte_len(s: Seq<char>) -> nat {
    encode_utf8(s).len()
}

pub open spec fn bot_placeholder() -> Seq<char> {
    seq!['{', '{', 'b', 'o', 't', '}', '}']
}

pub open spec fn user_placeholder() -> Seq<char> {
    seq!['{', '{', 'u', 's', 'e', 'r', '}', '}']
}

/// The persona template with the bot's and the last speaker's names filled in.
pub open spec fn system_prompt(template: Seq<char>, bot_name: Seq<char>, user_name: Seq<char>) -> Seq<
    char,
> {
    replace_all(replace_all(template, bot_placeholder(), bot_name), user_placeholder(), user_name)
}

/// The role under which `e` is sent: the bot's own messages are the assistant's.
pub open spec fn render_role(e: HistoryEntry, bot_id: u64) -> ChatMessageRole {
    if e.author_id == bot_id {
        ChatMessageRole::Assistant
    } else {
        ChatMessageRole::User
    }
}

/// The text under which `e` is sent: others' messages carry the author's name.
pub open spec fn render_content(e: HistoryEntry, bot_id: u64) -> Seq<char> {
    if e.author_id == bot_id {
        e.human_format_content@
    } else {
        e.author_name@ + seq![':', ' '] + e.human_format_content@
    }
}

/// Bytes of the newest `j` entries of `h`, as rendered.
pub open spec fn newest_bytes(h: Seq<HistoryEntry>, bot_id: u64, j: nat) -> nat
    decreases j,
{
    if j == 0 || j > h.len() {
        0
    } else {
        newest_bytes(h, bot_id, (j - 1) as nat) + byte_len(render_content(h[h.len() - j], bot_id))
    }
}

/// Whether the system message and the newest `j` entries fit in `budget`
/// estimated tokens, at three bytes a token.
pub open spec fn fits(h: Seq<HistoryEntry>, bot_id: u64, system_bytes: nat, budget: nat, j: nat) -> bool {
    (system_bytes + newest_bytes(h, bot_id, j)) / 3 <= budget
}

/// How many entries are kept when the walk from the newest has passed `j` of them.
pub open spec fn kept_from(h: Seq<HistoryEntry>, bot_id: u64, system_bytes: nat, budget: nat, j: nat) -> nat
    decreases h.len() - j,
{
    if j >= h.len() {
        h.len()
    } else if !fits(h, bot_id, system_bytes, budget, j + 1) {
        j
    } else {
        kept_from(h, bot_id, system_bytes, budget, j + 1)
    }
}

/// How many of the newest entries of `h` the packer keeps: it walks from the
/// newest and stops at the first entry that would exceed the budget.
pub open spec fn kept_count(h: Seq<HistoryEntry>, bot_id: u64, system_bytes: nat, budget: nat) -> nat {
    kept_from(h, bot_id, system_bytes, budget, 0)
}

/// Whether `m` is entry `e` as sent to the model.
pub open spec fn renders(m: ChatMessage, e: HistoryEntry, bot_id: u64) -> bool {
    m.role == render_role(e, bot_id) && m.content@ == render_content(e, bot_id)
}

/// Whether `messages` is the packed conversation for history `h`: the system
/// message, then the newest `kept_count` entries in chronological order.
pub open spec fn is_packed(
    messages: Seq<ChatMessage>,
    h: Seq<HistoryEntry>,
    bot_id: u64,
    system: Seq<char>,
    budget: nat,
) -> bool {
    let k = kept_count(h, bot_id, byte_len(system), budget);
    &&& messages.len() == k + 1
    &&& messages[0].role == ChatMessageRole::System
    &&& messages[0].content@ == system
    &&& forall|i: int|
        1 <= i < messages.len() ==> renders(#[trigger] messages[i], h[h.len() - k + i - 1], bot_id)
}

/// The walk never keeps more entries than the history has, and it keeps at
/// least the passed ones.
proof fn lemma_kept_from_bounds(h: Seq<HistoryEntry>, bot_id: u64, sb: nat, budget: nat, j: nat)
    requires
        j <= h.len(),
    ensures
        j <= kept_from(h, bot_id, sb, budget, j) <= h.len(),
    decreases h.len() - j,
{
    if j < h.len() && fits(h, bot_id, sb, budget, j + 1) {
        lemma_kept_from_bounds(h, bot_id, sb, budget, j + 1);
    }
}

/// Every prefix of the walk up to where it stops fits in the budget, and the
/// next entry, if any, does not.
proof fn lemma_kept_from_fits(h: Seq<HistoryEntry>, bot_id: u64, sb: nat, budget: nat, j: nat)
    requires
        j <= h.len(),
    ensures
        forall|t: nat|
            j < t <= kept_from(h, bot_id, sb, budget, j) ==> fits(h, bot_id, sb, budget, t),
        kept_from(h, bot_id, sb, budget, j) < h.len() ==> !fits(
            h,
            bot_id,
            sb,
            budget,
            kept_from(h, bot_id, sb, budget, j) + 1,
        ),
    decreases h.len() - j,
{
    if j < h.len() && fits(h, bot_id, sb, budget, j + 1) {
        lemma_kept_from_fits(h, bot_id, sb, budget, j + 1);
    }
}

/// The packer's output starts with the one system message; every other
/// message is a history entry, in the order of the history, and those entries
/// are the newest ones.
pub proof fn lemma_packed_order(
    messages: Seq<ChatMessage>,
    h: Seq<HistoryEntry>,
    bot_id: u64,
    system: Seq<char>,
    budget: nat,
)
    requires
        is_packed(messages, h, bot_id, system, budget),
    ensures
        messages[0].role == ChatMessageRole::System,
        forall|i: int| 1 <= i < messages.len() ==> (#[trigger] messages[i]).role != ChatMessageRole::System,
        forall|i: int, j: int|
            1 <= i < j < messages.len() ==> {
                let k = messages.len() - 1;
                renders(#[trigger] messages[i], h[h.len() - k + i - 1], bot_id) && renders(
                    #[trigger] messages[j],
                    h[h.len() - k + j - 1],
                    bot_id,
                ) && h.len() - k + i - 1 < h.len() - k + j - 1
            },
        messages.len() >= 2 ==> renders(messages[messages.len() - 1], h[h.len() - 1], bot_id),
{
    lemma_kept_from_bounds(h, bot_id, byte_len(system), budget, 0);
    assert forall|i: int| 1 <= i < messages.len() implies (#[trigger] messages[i]).role
        != ChatMessageRole::System by {
        assert(renders(messages[i], h[h.len() - (messages.len() - 1) + i - 1], bot_id));
    }
    if messages.len() >= 2 {
        assert(renders(messages[messages.len() - 1], h[h.len() - 1], bot_id));
    }
}

/// The kept entries fit in the budget; and when the whole history together
/// with the system message exceeds three bytes a token of the budget, the
/// oldest entries are the ones left out, the oldest first.
pub proof fn lemma_packed_budget(h: Seq<HistoryEntry>, bot_id: u64, system: Seq<char>, budget: nat)
    ensures
        kept_count(h, bot_id, byte_len(system), budget) <= h.len(),
        kept_count(h, bot_id, byte_len(system), budget) > 0 ==> fits(
            h,
            bot_id,
            byte_len(system),
            budget,
            kept_count(h, bot_id, byte_len(system), budget),
        ),
        h.len() > 0 && byte_len(system) + newest_bytes(h, bot_id, h.len()) > 3 * budget + 2
            ==> kept_count(
            h,
            bot_id,
            byte_len(system),
            budget,
        ) < h.len(),
{
    let sb = byte_len(system);
    lemma_kept_from_bounds(h, bot_id, sb, budget, 0);
    lemma_kept_from_fits(h, bot_id, sb, budget, 0);
    let k = kept_count(h, bot_id, sb, budget);
    if sb + newest_bytes(h, bot_id, h.len()) > 3 * budget + 2 && k == h.len() && k > 0 {
        assert(fits(h, bot_id, sb, budget, k));
    }
}

proof fn lemma_kept_from_monotone(h: Seq<HistoryEntry>, bot_id: u64, sb: nat, b1: nat, b2: nat, j: nat)
    requires
        j <= h.len(),
        b1 <= b2,
    ensures
        kept_from(h, bot_id, sb, b1, j) <= kept_from(h, bot_id, sb, b2, j),
    decreases h.len() - j,
{
    lemma_kept_from_bounds(h, bot_id, sb, b2, j);
    if j < h.len() && fits(h, bot_id, sb, b1, j + 1) {
        assert(fits(h, bot_id, sb, b2, j + 1));
        lemma_kept_from_monotone(h, bot_id, sb, b1, b2, j + 1);
    }
}

/// A larger budget keeps at least as many of the newest entries: the packed
/// history under budget `b1` is a suffix of the one under any `b2 >= b1`.
pub proof fn lemma_packed_budget_monotone(h: Seq<HistoryEntry>, bot_id: u64, system: Seq<char>, b1: nat, b2: nat)
    requires
        b1 <= b2,
    ensures
        kept_count(h, bot_id, byte_len(system), b1) <= kept_count(h, bot_id, byte_len(system), b2),
{
    lemma_kept_from_monotone(h, bot_id, byte_len(system), b1, b2, 0);
}

/// `e` as sent to the model.
fn render(e: &HistoryEntry, bot_id: u64) -> (r: ChatMessage)
    ensures
        renders(r, *e, bot_id),
{
    if e.author_id == bot_id {
        ChatMessage { role: ChatMessageRole::Assistant, content: e.human_format_content.clone() }
    } else {
        let mut content = e.author_name.clone();
        let sep = ": ";
        proof {
            reveal_strlit(": ");
        }
        content.append(sep);
        content.append(e.human_format_content.as_str());
        assert(content@ =~= render_content(*e, bot_id));
        ChatMessage { role: ChatMessageRole::User, content }
    }
}

/// The persona template with `{{bot}}` and `{{user}}` filled in.
pub fn fill_system_prompt(template: &str, bot_name: &str, user_name: &str) -> (r: String)
    ensures
        r@ == system_prompt(template@, bot_name@, user_name@),
{
    let bot = "{{bot}}";
    let user = "{{user}}";
    proof {
        reveal_strlit("{{bot}}");
        reveal_strlit("{{user}}");
        assert(bot@ =~= bot_placeholder());
        assert(user@ =~= user_placeholder());
    }
    let with_bot = replace(template, bot, bot_name);
    replace(with_bot.as_str(), user, user_name)
}

/// Number of bytes in the UTF-8 encoding of `s`.
pub fn byte_length(s: &str) -> (r: usize)
    ensures
        r == byte_len(s@),
{
    s.as_bytes().len()
}

/// The system message followed by the newest entries of `history` that fit in
/// `budget` estimated tokens, oldest of them first.
pub fn pack(history: &Vec<HistoryEntry>, system: String, bot_id: u64, budget: usize) -> (r: Vec<
    ChatMessage,
>)
    ensures
        is_packed(r@, history@, bot_id, system@, budget as nat),
{
    let ghost h = history@;
    let ghost sb = byte_len(system@);
    let n = history.len();
    let mut total: u128 = byte_length(system.as_str()) as u128;
    let mut newest: Vec<ChatMessage> = Vec::new();
    let mut j: usize = 0;
    let mut full = false;
    proof {
        lemma_kept_from_bounds(h, bot_id, sb, budget as nat, 0);
    }
    while j < n && !full
        invariant
            n == h.len(),
            h == history@,
            j <= n,
            total == sb + newest_bytes(h, bot_id, j as nat),
            j > 0 ==> total <= 3 * budget + 2,
            j == 0 ==> total <= usize::MAX,
            full ==> j < n && !fits(h, bot_id, sb, budget as nat, (j + 1) as nat),
            newest@.len() == j,
            forall|t: int| 0 <= t < j ==> renders(#[trigger] newest@[t], h[n - 1 - t], bot_id),
            kept_count(h, bot_id, sb, budget as nat) == kept_from(h, bot_id, sb, budget as nat, j as nat),
        decreases n - j + if full {
            0int
        } else {
            1int
        },
    {
        let m = render(&history[n - 1 - j], bot_id);
        let len = byte_length(m.content.as_str());
        let next = total + len as u128;
        assert(newest_bytes(h, bot_id, (j + 1) as nat) == newest_bytes(h, bot_id, j as nat)
            + byte_len(m.content@));
        if next / 3 > budget as u128 {
            full = true;
        } else {
            total = next;
            newest.push(m);
            j = j + 1;
        }
    }
    let ghost k = j as nat;
    assert(kept_count(h, bot_id, sb, budget as nat) == k);
    let ghost nw = newest@;
    let mut messages: Vec<ChatMessage> = Vec::new();
    messages.push(ChatMessage { role: ChatMessageRole::System, content: system });
    let mut i: usize = 0;
    while i < j
        invariant
            i <= j,
            j == nw.len(),
            newest@ == nw.subrange(0, j - i),
            messages@.len() == i + 1,
            messages@[0].role == ChatMessageRole::System,
            messages@[0].content@ == system@,
            n == h.len(),
            j <= n,
            forall|t: int| 0 <= t < j ==> renders(#[trigger] nw[t], h[n - 1 - t], bot_id),
            forall|t: int| 1 <= t <= i ==> renders(#[trigger] messages@[t], h[n - j + t - 1], bot_id),
        decreases j - i,
    {
        let m = newest.pop().unwrap();
        assert(m == nw[j - 1 - i]);
        assert(renders(m, h[n - 1 - (j - 1 - i)], bot_id));
        messages.push(m);
        i = i + 1;
    }
    messages
}

impl LlmChatRequest {
    /// The request for a reply in a channel with history `history`, as the
    /// bot (`bot_id`, named `bot_name`) under the persona of `settings`.
    /// Fails exactly when the history is empty: the persona names the last
    /// speaker.
    pub fn from_recent_history(
        history: &Vec<HistoryEntry>,
        settings: &LlmSettings,
        bot_id: u64,
        bot_name: &str,
    ) -> (r: Result<LlmChatRequest, LlmError>)
        ensures
            history@.len() == 0 <==> r is Err,
            r is Err ==> r == Err::<LlmChatRequest, LlmError>(LlmError::NoHistory),
            r matches Ok(req) ==> {
                &&& req.model@ == settings.model_name@
                &&& !req.stream
                &&& req.num_ctx == settings.context_size
                &&& is_packed(
                    req.messages@,
                    history@,
                    bot_id,
                    system_prompt(
                        settings.system@,
                        bot_name@,
                        history@.last().author_name@,
                    ),
                    settings.context_size as nat,
                )
            },
    {
        if history.len() == 0 {
            return Err(LlmError::NoHistory);
        }
        let last = &history[history.len() - 1];
        let system = fill_system_prompt(
            settings.system.as_str(),
            bot_name,
            last.author_name.as_str(),
        );
        let messages = pack(history, system, bot_id, settings.context_size);
        Ok(LlmChatRequest {
            model: settings.model_name.clone(),
            stream: false,
            messages,
            num_ctx: settings.context_size,
        })
    }
}

/// The text to post for the model's reply `content`: the reply itself, or a
/// fixed apology where it is too long for one post.
pub fn finish_reply(content: String) -> (r: String)
    ensures
        r@ == if byte_len(content@) >= REPLY_LIMIT_BYTES {
            TOO_LONG_REPLY@
        } else {
            content@
        },
{
    if byte_length(content.as_str()) >= REPLY_LIMIT_BYTES {
        TOO_LONG_REPLY.to_owned()
    } else {
        content
    }
}

} // verus!
