//! Error kinds of the core. Every check is local and pure: an operation
//! reports a distinguishable kind per condition and never aborts.

use vstd::prelude::*;

verus! {

/// Why a chat operation failed.
#[derive(Clone, Copy, PartialEq, Eq, Structural, Debug)]
pub enum ChatError {
    /// `add_message` was called on a chat whose status is `ended`.
    ChatEnded,
    /// `validate` found a status that is neither `active` nor `ended`.
    InvalidStatus,
    /// `validate` found the token usage above the configured budget.
    InvalidTokenUsage,
}

impl ChatError {
    /// The human-readable description of this kind.
    pub fn message(&self) -> (r: String)
        ensures
            *self is ChatEnded ==> r@ == "Chat has already ended"@,
            *self is InvalidStatus ==> r@ == "Chat status is invalid"@,
            *self is InvalidTokenUsage ==> r@ == "Chat token usage is invalid"@,
    {
        match self {
            ChatError::ChatEnded => "Chat has already ended".to_owned(),
            ChatError::InvalidStatus => "Chat status is invalid".to_owned(),
            ChatError::InvalidTokenUsage => "Chat token usage is invalid".to_owned(),
        }
    }
}

/// Why a message failed validation.
#[derive(Clone, Copy, PartialEq, Eq, Structural, Debug)]
pub enum MessageError {
    /// The role is none of `system`, `user`, `assistant`.
    InvalidRole,
    /// The content has zero length.
    EmptyContent,
    /// The creation time lies in the future.
    InvalidTimestamp,
}

impl MessageError {
    /// The human-readable description of this kind.
    pub fn message(&self) -> (r: String)
        ensures
            *self is InvalidRole ==> r@ == "role is invalid"@,
            *self is EmptyContent ==> r@ == "content is empty"@,
            *self is InvalidTimestamp ==> r@ == "created_at is invalid"@,
    {
        match self {
            MessageError::InvalidRole => "role is invalid".to_owned(),
            MessageError::EmptyContent => "content is empty".to_owned(),
            MessageError::InvalidTimestamp => "created_at is invalid".to_owned(),
        }
    }
}

} // verus!
