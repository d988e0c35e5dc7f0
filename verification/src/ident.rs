//! Fresh identifiers for new records.

use uuid::Uuid;
use vstd::prelude::*;

verus! {

/// The number of characters of an identifier: 32 hexadecimal digits in five
/// groups with four hyphens between them.
pub const ID_LEN: usize = 36;

/// Draws a random version 4 identifier with uuid's `Uuid::new_v4` and writes
/// it as uuid displays it: in the hyphenated lower-case form, which always
/// has 36 characters. Which identifier comes back is left to chance; uuid
/// stops the program where the operating system hands out no random bytes.
#[verifier::external_body]
pub(crate) fn fresh_id() -> (id: String)
    ensures
        id@.len() == ID_LEN,
{
    Uuid::new_v4().to_string()
}

} // verus!
