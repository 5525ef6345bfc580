//! Family-name encoding for the system-font lookup.
//!
//! The engine's family lookup takes the name as wide (UTF-16) units. The
//! encoding itself comes from the `widestring` crate; the one call is the
//! only outside call of this library.

use vstd::prelude::*;

verus! {

/// The UTF-16 encoding of a string, as `widestring` computes it. The result
/// depends on the characters alone.
pub uninterp spec fn utf16_units_of(s: Seq<char>) -> Seq<u16>;

/// Relies on widestring::U16CString::from_str: encodes the string as UTF-16
/// and fails exactly when a nul stands anywhere but in the final position.
#[verifier::external_body]
fn utf16_c_string_units(s: &str) -> (r: Option<Vec<u16>>)
    ensures
        r is Some <==> (forall|i: int| 0 <= i < s@.len() - 1 ==> s@[i] != '\u{0}'),
        r matches Some(v) ==> ((forall|i: int| 0 <= i < s@.len() ==> s@[i] != '\u{0}') ==> v@
            == utf16_units_of(s@)),
        r matches Some(v) ==> (s@.len() == 0 ==> v@.len() == 0),
{
    match widestring::U16CString::from_str(s) {
        Ok(wide) => Some(wide.into_vec()),
        Err(_) => None,
    }
}

/// A family name encoded for the engine's lookup: the UTF-16 units of the
/// name, without a terminator. A name holding a nul cannot be handed to the
/// engine and is the caller's contract violation, as it always was.
pub fn encode_family_name(name: &str) -> (r: Vec<u16>)
    requires
        forall|i: int| 0 <= i < name@.len() ==> name@[i] != '\u{0}',
    ensures
        r@ == utf16_units_of(name@),
{
    match utf16_c_string_units(name) {
        Some(units) => units,
        None => {
            proof {
                assert(false);
            }
            Vec::new()
        },
    }
}

} // verus!
