//! The parts of the bot's configuration that the logic reads.
use vstd::prelude::*;

verus! {

/// General settings.
pub struct General {
    pub discord_token: String,
    /// Global user names of the bot's owners.
    pub bot_owners: Vec<String>,
    pub command_prefix: String,
    /// Cooldown between two notifications of one user.
    pub notification_limit_seconds: u64,
}

/// Limits of the conversation history.
pub struct History {
    /// How many messages a channel is seeded with.
    pub channel_backfill_message_count: u8,
    /// How many messages a channel keeps.
    pub channel_max_message_count: usize,
}

/// Endpoints of the language model.
pub struct LlmGeneral {
    pub chat_url: String,
    pub completion_url: String,
}

/// Whether `name` is one of `owners`.
pub open spec fn is_owner_of(owners: Seq<String>, name: Seq<char>) -> bool {
    exists|i: int| 0 <= i < owners.len() && (#[trigger] owners[i])@ == name
}

impl General {
    /// Whether the user with global name `author_name` owns the bot.
    pub fn is_from_owner(&self, author_name: &str) -> (r: bool)
        ensures
            r == is_owner_of(self.bot_owners@, author_name@),
    {
        let name = author_name.to_owned();
        let mut i: usize = 0;
        while i < self.bot_owners.len()
            invariant
                i <= self.bot_owners@.len(),
                name@ == author_name@,
                forall|j: int| 0 <= j < i ==> (#[trigger] self.bot_owners@[j])@ != author_name@,
            decreases self.bot_owners@.len() - i,
        {
            if self.bot_owners[i] == name {
                return true;
            }
            i = i + 1;
        }
        false
    }
}

} // verus!
