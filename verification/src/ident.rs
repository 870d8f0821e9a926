//! Identifiers for the records of a scan result.

use vstd::prelude::*;

verus! {

/// The length of an identifier: 32 hexadecimal digits in five groups with
/// four hyphens between them.
pub const ID_LENGTH: usize = 36;

/// A fresh random identifier.
///
/// Calls `uuid::Uuid::new_v4` and renders the value with its `Display`
/// impl, which writes the hyphenated lower-case form. The value is drawn
/// from the operating system's random source, so the contract states only
/// what holds of every outcome: the length of the rendering. That two
/// identifiers differ is not claimed. Where the operating system hands out
/// no random bytes the call does not return: it unwinds, as an allocation
/// that fails does, and no precondition can rule that out.
#[verifier::external_body]
pub(crate) fn fresh_id() -> (id: String)
    ensures
        id@.len() == ID_LENGTH,
{
    uuid::Uuid::new_v4().to_string()
}

} // verus!
