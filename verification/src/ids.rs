//! Identifiers carried by chats and messages.

use vstd::prelude::*;

verus! {

/// Makes `uuid::Uuid` known to the verifier as an opaque type. Chats and
/// messages carry such an identifier through unchanged; nothing in the core
/// reads its contents.
#[verifier::external_type_specification]
#[verifier::external_body]
pub struct ExUuid(uuid::Uuid);

} // verus!
