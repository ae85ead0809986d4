//! Identifiers of contracts and publishers.

use vstd::prelude::*;

verus! {

/// `uuid::Uuid`, carried through unread: contracts only say which identifier
/// comes out where.
#[verifier::external_type_specification]
#[verifier::external_body]
pub struct ExUuid(uuid::Uuid);

} // verus!
