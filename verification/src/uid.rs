//! Fresh identities for sandbox instances.

use vstd::prelude::*;
use vstd::utf8::is_ascii_chars;

verus! {

/// Relies on uuid::Uuid::new_v4 and its Display impl: a random version-4
/// UUID written in the hyphenated form, which is 36 ASCII characters.
/// Nothing more can be said of a random identity.
#[verifier::external_body]
pub fn fresh_instance_id() -> (r: String)
    ensures
        r@.len() == 36,
        is_ascii_chars(r@),
{
    uuid::Uuid::new_v4().to_string()
}

} // verus!
