//! A single turn of a conversation: who spoke, what was said, how many
//! tokens it consumes, against which model, and when it was created.
//! Construction prefers an externally computed token count and falls back
//! to the caller's value; validation self-checks well-formedness.

use vstd::prelude::*;

use crate::errors::MessageError;
use crate::model::Model;
use crate::time::Timestamp;
use crate::time::now_timestamp;
use uuid::Uuid;

verus! {

/// What `tiktoken_rs::get_completion_max_tokens` returns for a model name
/// and a prompt: the tokens left for a completion, `Some` exactly when the
/// crate knows a tokenizer for the model. A function of the two strings
/// alone.
pub uninterp spec fn completion_tokens_left(model_name: Seq<char>, prompt: Seq<char>) -> Option<usize>;

/// Relies on `tiktoken_rs::get_completion_max_tokens`: it computes the
/// model's context size minus the prompt's token count (saturating at
/// zero) from its two arguments alone, and fails exactly when it knows no
/// tokenizer for the model name.
#[verifier::external_body]
fn tokenizer_completion_tokens(model_name: &str, prompt: &str) -> (r: Option<usize>)
    ensures
        r == completion_tokens_left(model_name@, prompt@),
{
    tiktoken_rs::get_completion_max_tokens(model_name, prompt).ok()
}

/// The token count a message ends up with, given what the external
/// tokenizer computed and the caller's fallback value.
pub open spec fn spec_resolve_token_count(computed: Option<usize>, fallback: usize) -> usize {
    match computed {
        Some(t) => t,
        None => fallback,
    }
}

/// The result-or-default step of construction: take the externally
/// computed token count where there is one, the caller's value otherwise.
/// Tokenizer failure is a first-class, non-fatal branch.
pub fn resolve_token_count(computed: Option<usize>, fallback: usize) -> (r: usize)
    ensures
        r == spec_resolve_token_count(computed, fallback),
{
    match computed {
        Some(t) => t,
        None => fallback,
    }
}

/// Tests a `String` against a string literal by contents.
pub(crate) fn string_eq_literal(s: &String, lit: &str) -> (r: bool)
    ensures
        r == (s@ == lit@),
{
    let owned: String = lit.to_owned();
    *s == owned
}

/// One immutable conversational turn. The model is shared, not owned: the
/// `Model` value outlives every message that references it.
#[derive(Debug)]
pub struct Message<'a> {
    pub id: Uuid,
    pub role: String,
    pub content: String,
    pub tokens: usize,
    pub model: &'a Model,
    pub created_at: Timestamp,
}

impl<'a> Message<'a> {
    /// Whether the role is one of the three the core accepts.
    pub open spec fn spec_role_valid(self) -> bool {
        self.role@ == "user"@ || self.role@ == "system"@ || self.role@ == "assistant"@
    }

    /// What `validate` decides when the current time is `now`: the first
    /// failing check wins, in the order role, content, creation time.
    pub open spec fn spec_validate_at(self, now: Timestamp) -> Result<(), MessageError> {
        if !self.spec_role_valid() {
            Err(MessageError::InvalidRole)
        } else if self.content@.len() == 0 {
            Err(MessageError::EmptyContent)
        } else if self.created_at.millis > now.millis {
            Err(MessageError::InvalidTimestamp)
        } else {
            Ok(())
        }
    }

    /// A value-independent duplicate that shares the same model reference.
    pub fn clone(&self) -> (r: Self)
        ensures
            r == *self,
    {
        Self {
            id: self.id,
            role: self.role.clone(),
            content: self.content.clone(),
            tokens: self.tokens,
            model: self.model,
            created_at: self.created_at,
        }
    }

    /// Builds a turn. The token count is taken from the external tokenizer
    /// where that call succeeds for this model's name, and from the
    /// caller-supplied `tokens` otherwise: construction never fails solely
    /// because tokenization failed.
    pub fn new(
        id: Uuid,
        role: &str,
        content: &str,
        tokens: usize,
        model: &'a Model,
        created_at: Timestamp,
    ) -> (r: Self)
        ensures
            r.id == id,
            r.role@ == role@,
            r.content@ == content@,
            r.tokens == spec_resolve_token_count(
                completion_tokens_left(model.name@, content@),
                tokens,
            ),
            r.model == model,
            r.created_at == created_at,
    {
        let computed = tokenizer_completion_tokens(model.name.as_str(), content);
        let total = resolve_token_count(computed, tokens);
        Self {
            id,
            role: role.to_owned(),
            content: content.to_owned(),
            tokens: total,
            model,
            created_at,
        }
    }

    pub fn id(&self) -> (r: Uuid)
        ensures
            r == self.id,
    {
        self.id
    }

    pub fn role(&self) -> (r: &str)
        ensures
            r@ == self.role@,
    {
        self.role.as_str()
    }

    pub fn content(&self) -> (r: &str)
        ensures
            r@ == self.content@,
    {
        self.content.as_str()
    }

    pub fn tokens(&self) -> (r: usize)
        ensures
            r == self.tokens,
    {
        self.tokens
    }

    pub fn model(&self) -> (r: &Model)
        ensures
            r == self.model,
    {
        self.model
    }

    pub fn created_at(&self) -> (r: Timestamp)
        ensures
            r == self.created_at,
    {
        self.created_at
    }

    /// Checks the turn against the current time `now`: the decision is
    /// exactly `spec_validate_at`.
    pub fn validate_at(&self, now: Timestamp) -> (r: Result<(), MessageError>)
        ensures
            r == self.spec_validate_at(now),
    {
        let valid_role = string_eq_literal(&self.role, "user")
            || string_eq_literal(&self.role, "system")
            || string_eq_literal(&self.role, "assistant");

        if !valid_role {
            return Err(MessageError::InvalidRole);
        }

        if self.content.as_str().is_empty() {
            return Err(MessageError::EmptyContent);
        }

        if self.created_at.millis > now.millis {
            return Err(MessageError::InvalidTimestamp);
        }

        Ok(())
    }

    /// Checks the turn against the external clock. The role and content
    /// checks do not depend on the clock and are pinned exactly; whatever
    /// instant the clock returned, the rest is decided by `validate_at`.
    pub fn validate(&self) -> (r: Result<(), MessageError>)
        ensures
            !self.spec_role_valid() ==> r == Err::<(), MessageError>(MessageError::InvalidRole),
            self.spec_role_valid() && self.content@.len() == 0 ==> r == Err::<(), MessageError>(
                MessageError::EmptyContent,
            ),
            self.spec_role_valid() && self.content@.len() > 0 ==> (r == Ok::<(), MessageError>(())
                || r == Err::<(), MessageError>(MessageError::InvalidTimestamp)),
    {
        self.validate_at(now_timestamp())
    }
}

} // verus!
