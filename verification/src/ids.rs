//! Fresh random identifiers.
use vstd::prelude::*;

verus! {

/// A fresh random version-4 UUID in its hyphenated form (`uuid::Uuid::new_v4`
/// written with `to_string`): 36 characters. Nothing more is promised of it.
#[verifier::external_body]
pub(crate) fn new_uuid() -> (r: String)
    ensures
        r@.len() == 36,
{
    uuid::Uuid::new_v4().to_string()
}

/// A fresh random version-4 UUID written as 32 hexadecimal digits without
/// hyphens (`uuid::Uuid::new_v4` in its `simple` form). Nothing more is
/// promised of it.
#[verifier::external_body]
pub(crate) fn new_uuid_simple() -> (r: String)
    ensures
        r@.len() == 32,
{
    uuid::Uuid::new_v4().simple().to_string()
}

} // verus!
