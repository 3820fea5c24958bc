//! A conversation: an ordered history of admitted turns, a side list of
//! turns rejected for exceeding the token budget, a running usage counter
//! that always equals the sum over the history, and a one-way lifecycle
//! from `active` to `ended`.

use vstd::prelude::*;

use crate::errors::ChatError;
use crate::message::Message;
use crate::message::string_eq_literal;
use crate::model::Model;
use uuid::Uuid;

verus! {

/// The sum of the token counts of the first `n` entries.
pub open spec fn sum_tokens_prefix(msgs: Seq<Message>, n: int) -> int
    decreases n,
{
    if n <= 0 {
        0
    } else {
        sum_tokens_prefix(msgs, n - 1) + msgs[n - 1].tokens
    }
}

/// The sum of the token counts of all entries.
pub open spec fn sum_tokens(msgs: Seq<Message>) -> int {
    sum_tokens_prefix(msgs, msgs.len() as int)
}

/// Two sequences that agree entry by entry up to `n` have the same prefix
/// sum up to `n`.
pub proof fn lemma_sum_prefix_agree(a: Seq<Message>, b: Seq<Message>, n: int)
    requires
        forall|i: int| 0 <= i < n ==> #[trigger] a[i] == b[i],
    ensures
        sum_tokens_prefix(a, n) == sum_tokens_prefix(b, n),
    decreases n,
{
    if n > 0 {
        lemma_sum_prefix_agree(a, b, n - 1);
    }
}

/// Token counts are non-negative, so prefix sums grow with the prefix.
pub proof fn lemma_sum_prefix_monotonic(msgs: Seq<Message>, i: int, j: int)
    requires
        0 <= i <= j,
    ensures
        sum_tokens_prefix(msgs, i) <= sum_tokens_prefix(msgs, j),
    decreases j,
{
    if i < j {
        lemma_sum_prefix_monotonic(msgs, i, j - 1);
    }
}

/// Appending one entry adds exactly its token count to the sum.
pub proof fn lemma_sum_push(msgs: Seq<Message>, m: Message)
    ensures
        sum_tokens(msgs.push(m)) == sum_tokens(msgs) + m.tokens,
{
    lemma_sum_prefix_agree(msgs.push(m), msgs, msgs.len() as int);
}

/// Per-conversation configuration: the model and the generation
/// parameters the core reads. `max_tokens` is the authoritative budget
/// for admission, independent of the model's nominal capacity.
pub struct ChatConfig {
    pub model: Model,
    pub n: u32,
    pub stop: Vec<String>,
    pub max_tokens: usize,
}

/// A conversation. The fields are public, as callers construct chats from
/// externally persisted state; `validate` re-checks consistency.
pub struct Chat<'a> {
    pub id: Uuid,
    pub user_id: Uuid,
    pub initial_system_message: Message<'a>,
    pub messages: Vec<Message<'a>>,
    pub erased_messages: Vec<Message<'a>>,
    pub status: String,
    pub token_usage: usize,
    pub config: ChatConfig,
}

impl<'a> Chat<'a> {
    /// Whether the lifecycle has reached its terminal state.
    pub open spec fn spec_ended(self) -> bool {
        self.status@ == "ended"@
    }

    /// Whether the status is one of the two the core accepts.
    pub open spec fn spec_status_valid(self) -> bool {
        self.status@ == "active"@ || self.status@ == "ended"@
    }

    /// Whether a turn of `tokens` tokens fits the remaining budget.
    pub open spec fn spec_fits(self, tokens: usize) -> bool {
        tokens + self.token_usage <= self.config.max_tokens
    }

    /// Whether `add_message` would append a turn with `tokens` to the
    /// history: the chat is not ended and the turn fits the budget.
    pub open spec fn spec_admits(self, tokens: usize) -> bool {
        !self.spec_ended() && self.spec_fits(tokens)
    }

    /// Well-formedness: the usage counter equals the sum over the history
    /// and stays within the budget.
    pub open spec fn spec_wf(self) -> bool {
        &&& self.token_usage == sum_tokens(self.messages@)
        &&& self.token_usage <= self.config.max_tokens
    }

    /// The chat with its usage counter recomputed from the history.
    pub open spec fn spec_refreshed(self) -> Chat<'a> {
        Chat { token_usage: sum_tokens(self.messages@) as usize, ..self }
    }

    /// What `validate` decides: first the status check, then the budget
    /// check.
    pub open spec fn spec_validate(self) -> Result<(), ChatError> {
        if !self.spec_status_valid() {
            Err(ChatError::InvalidStatus)
        } else if self.token_usage > self.config.max_tokens {
            Err(ChatError::InvalidTokenUsage)
        } else {
            Ok(())
        }
    }

    pub fn new(
        id: Uuid,
        user_id: Uuid,
        initial_system_message: Message<'a>,
        messages: Vec<Message<'a>>,
        erased_messages: Vec<Message<'a>>,
        status: String,
        token_usage: usize,
        config: ChatConfig,
    ) -> (r: Self)
        ensures
            r.id == id,
            r.user_id == user_id,
            r.initial_system_message == initial_system_message,
            r.messages == messages,
            r.erased_messages == erased_messages,
            r.status == status,
            r.token_usage == token_usage,
            r.config == config,
    {
        Self {
            id,
            user_id,
            initial_system_message,
            messages,
            erased_messages,
            status,
            token_usage,
            config,
        }
    }

    /// Read-only consistency check: the decision is exactly
    /// `spec_validate`, callable in any state.
    pub fn validate(&self) -> (r: Result<(), ChatError>)
        ensures
            r == self.spec_validate(),
    {
        let active = string_eq_literal(&self.status, "active");
        let ended = string_eq_literal(&self.status, "ended");
        if !active && !ended {
            return Err(ChatError::InvalidStatus);
        }

        if self.token_usage > self.config.max_tokens {
            return Err(ChatError::InvalidTokenUsage);
        }

        Ok(())
    }

    /// Admits or erases one turn. On an ended chat nothing changes and the
    /// call fails; otherwise the turn goes to the history exactly when it
    /// fits the remaining budget, and to the erased list otherwise. After
    /// an admission the usage counter is recomputed from the history, so a
    /// well-formed chat stays well-formed.
    pub fn add_message(&mut self, message: Message<'a>) -> (r: Result<(), ChatError>)
        requires
            old(self).spec_admits(message.tokens) ==> sum_tokens(old(self).messages@)
                + message.tokens <= usize::MAX,
        ensures
            old(self).spec_ended() ==> r == Err::<(), ChatError>(ChatError::ChatEnded)
                && *final(self) == *old(self),
            !old(self).spec_ended() ==> r == Ok::<(), ChatError>(()),
            !old(self).spec_ended() && old(self).spec_fits(message.tokens) ==> {
                &&& final(self).messages@ == old(self).messages@.push(message)
                &&& final(self).token_usage == sum_tokens(old(self).messages@) + message.tokens
                &&& final(self).erased_messages@ == old(self).erased_messages@
            },
            !old(self).spec_ended() && !old(self).spec_fits(message.tokens) ==> {
                &&& final(self).messages@ == old(self).messages@
                &&& final(self).token_usage == old(self).token_usage
                &&& final(self).erased_messages@ == old(self).erased_messages@.push(message)
            },
            final(self).id == old(self).id,
            final(self).user_id == old(self).user_id,
            final(self).initial_system_message == old(self).initial_system_message,
            final(self).status == old(self).status,
            final(self).config == old(self).config,
            old(self).spec_wf() ==> final(self).spec_wf(),
    {
        if string_eq_literal(&self.status, "ended") {
            return Err(ChatError::ChatEnded);
        }

        let fits = message.tokens <= self.config.max_tokens && self.token_usage
            <= self.config.max_tokens - message.tokens;
        if fits {
            proof {
                lemma_sum_push(self.messages@, message);
            }
            self.messages.push(message.clone());
            self.refresh_token_usage();
        } else {
            self.erased_messages.push(message.clone());
        }

        Ok(())
    }

    /// Recomputes the usage counter from the history, unconditionally: it
    /// repairs the derived value and never governs admission.
    pub fn refresh_token_usage(&mut self)
        requires
            sum_tokens(old(self).messages@) <= usize::MAX,
        ensures
            *final(self) == old(self).spec_refreshed(),
            final(self).token_usage == sum_tokens(old(self).messages@),
    {
        let n = self.messages.len();
        let mut total: usize = 0;
        let mut i: usize = 0;
        while i < n
            invariant
                i <= n,
                n == self.messages@.len(),
                total == sum_tokens_prefix(self.messages@, i as int),
                sum_tokens(self.messages@) <= usize::MAX,
                *self == *old(self),
            decreases n - i,
        {
            proof {
                lemma_sum_prefix_monotonic(self.messages@, i as int + 1, n as int);
            }
            total = total + self.messages[i].tokens;
            i = i + 1;
        }
        self.token_usage = total;
    }

    /// An independent copy of the accepted history, in insertion order.
    /// The result is owned by the caller: changing it cannot reach the
    /// chat's own state.
    pub fn get_messages(&self) -> (r: Vec<Message<'a>>)
        ensures
            r@ == self.messages@,
    {
        let mut out: Vec<Message<'a>> = Vec::new();
        let n = self.messages.len();
        let mut i: usize = 0;
        while i < n
            invariant
                i <= n,
                n == self.messages@.len(),
                out@.len() == i as int,
                forall|j: int| 0 <= j < i ==> #[trigger] out@[j] == self.messages@[j],
            decreases n - i,
        {
            out.push(self.messages[i].clone());
            i = i + 1;
        }
        proof {
            assert(out@ =~= self.messages@);
        }
        out
    }

    /// The current size of the accepted history.
    pub fn count_messages(&self) -> (r: usize)
        ensures
            r == self.messages@.len(),
    {
        self.messages.len()
    }

    /// Transitions the lifecycle to `ended`, unconditionally; there is no
    /// way back, and ending an ended chat changes nothing observable.
    pub fn end(&mut self)
        ensures
            final(self).spec_ended(),
            final(self).id == old(self).id,
            final(self).user_id == old(self).user_id,
            final(self).initial_system_message == old(self).initial_system_message,
            final(self).messages == old(self).messages,
            final(self).erased_messages == old(self).erased_messages,
            final(self).token_usage == old(self).token_usage,
            final(self).config == old(self).config,
    {
        self.status = "ended".to_owned();
    }
}

} // verus!
