//! Fresh identifiers for new entities.

use uuid::Uuid;
use vstd::prelude::*;

verus! {

/// The length of an identifier in its hyphenated form.
pub const ID_LEN: usize = 36;

/// Draws a random identifier with uuid's `Uuid::new_v4` and writes it out. The
/// value differs from call to call; uuid writes it in the hyphenated form, which
/// has thirty-six characters.
#[verifier::external_body]
pub(crate) fn new_id() -> (r: String)
    ensures
        r@.len() == ID_LEN,
{
    Uuid::new_v4().to_string()
}

} // verus!
