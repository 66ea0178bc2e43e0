//! The header map of the HTTP layer, as the verified code sees it.

use vstd::prelude::*;
use vstd::utf8::encode_utf8;

verus! {

#[verifier::external_type_specification]
#[verifier::external_body]
pub struct ExHeaders(hyper::header::Headers);

/// The raw values held under each header name, the name taken in ASCII lower
/// case (the map compares names without regard to ASCII case).
pub uninterp spec fn raw_headers(h: hyper::header::Headers) -> Map<Seq<char>, Seq<Seq<u8>>>;

/// A header name with no ASCII upper-case letter: it is its own lower-case form.
pub open spec fn is_lower_name(name: Seq<char>) -> bool {
    forall|i: int| 0 <= i < name.len() ==> !('A' <= #[trigger] name[i] && name[i] <= 'Z')
}

/// Relies on `hyper::header::Headers::set_raw`: it replaces whatever was held
/// under `name` (compared without regard to case) by the single raw value given.
#[verifier::external_body]
pub(crate) fn set_raw_header(headers: &mut hyper::header::Headers, name: &'static str, value: &str)
    requires
        is_lower_name(name@),
    ensures
        raw_headers(*final(headers)) == raw_headers(*old(headers)).insert(
            name@,
            seq![encode_utf8(value@)],
        ),
{
    headers.set_raw(name, vec![value.as_bytes().to_vec()]);
}

} // verus!
