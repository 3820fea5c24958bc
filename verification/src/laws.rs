//! Library-wide laws, stated over the spec functions the operations'
//! contracts use and proved once for all inputs.

use vstd::prelude::*;

use crate::chat::Chat;

verus! {

/// A freshly created conversation — empty history, usage counter zero —
/// is well-formed, whatever its budget. Together with `add_message`'s
/// guarantee that well-formedness is preserved, the usage counter of a
/// chat driven only through `add_message` always equals the sum over its
/// history and never exceeds the budget.
pub proof fn lemma_fresh_chat_well_formed(c: Chat)
    requires
        c.messages@.len() == 0,
        c.token_usage == 0,
    ensures
        c.spec_wf(),
{
}

/// Recomputing the usage counter is idempotent: refreshing a chat twice
/// leaves exactly the state that refreshing it once leaves, for any
/// history.
pub proof fn lemma_refresh_idempotent(c: Chat)
    ensures
        c.spec_refreshed().spec_refreshed() == c.spec_refreshed(),
{
}

} // verus!
