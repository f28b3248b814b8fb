//! Principals, the identities of users and canisters, held as their bytes;
//! their textual form comes from the `candid` crate.

use vstd::prelude::*;

verus! {

/// The most bytes a principal has.
pub const PRINCIPAL_MAX_BYTES: usize = 29;

/// The bytes of the principal a text writes, if it writes one: the text is
/// read case-insensitively and must carry a matching checksum and the
/// conventional grouping.
pub uninterp spec fn principal_from_text(text: Seq<char>) -> Option<Seq<u8>>;

/// The textual form of the principal with these bytes.
pub uninterp spec fn principal_text(bytes: Seq<u8>) -> Seq<char>;

/// `candid::Principal::from_text`: the principal a text writes, as its bytes,
/// which are never more than `PRINCIPAL_MAX_BYTES`.
#[verifier::external_body]
pub(crate) fn parse_principal(text: &str) -> (bytes: Option<Vec<u8>>)
    ensures
        bytes is Some <==> principal_from_text(text@) is Some,
        bytes matches Some(b) ==> principal_from_text(text@) == Some(b@),
        bytes matches Some(b) ==> b@.len() <= PRINCIPAL_MAX_BYTES,
{
    candid::Principal::from_text(text).ok().map(|p| p.as_slice().to_vec())
}

/// `candid::Principal::to_text` of the principal with these bytes. The text
/// it gives reads back, through `from_text`, as the same bytes.
#[verifier::external_body]
pub(crate) fn principal_to_text(bytes: &[u8]) -> (text: String)
    requires
        bytes@.len() <= PRINCIPAL_MAX_BYTES,
    ensures
        text@ == principal_text(bytes@),
        principal_from_text(text@) == Some(bytes@),
{
    candid::Principal::from_slice(bytes).to_text()
}

/// The principal a text writes, if it writes one.
pub fn principal_from_str(text: &str) -> (bytes: Option<Vec<u8>>)
    ensures
        bytes is Some <==> principal_from_text(text@) is Some,
        bytes matches Some(b) ==> principal_from_text(text@) == Some(b@) && b@.len()
            <= PRINCIPAL_MAX_BYTES,
{
    parse_principal(text)
}

/// The textual form of a principal, which reads back as the same principal.
pub fn principal_string(bytes: &[u8]) -> (text: String)
    requires
        bytes@.len() <= PRINCIPAL_MAX_BYTES,
    ensures
        text@ == principal_text(bytes@),
        principal_from_text(text@) == Some(bytes@),
{
    principal_to_text(bytes)
}

} // verus!
