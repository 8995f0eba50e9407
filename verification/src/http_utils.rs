//! Helpers for header lists and HTTP statuses.

use vstd::prelude::*;

use crate::text::{eq_ignore_ascii_case, str_eq_ignore_ascii_case};

verus! {

/// A list of headers as name/value texts.
pub open spec fn pairs_view(headers: Seq<(String, String)>) -> Seq<(Seq<char>, Seq<char>)> {
    headers.map_values(|pair: (String, String)| (pair.0@, pair.1@))
}

/// Some header in the list has this name, compared without regard to the
/// case of ASCII letters (header names are case-insensitive).
pub open spec fn spec_has_header(headers: Seq<(Seq<char>, Seq<char>)>, name: Seq<char>) -> bool {
    exists|i: int| 0 <= i < headers.len() && eq_ignore_ascii_case(#[trigger] headers[i].0, name)
}

/// Whether some header in the list has this name, ignoring ASCII case.
pub fn has_header(headers: &[(String, String)], name: &str) -> (present: bool)
    ensures
        present == spec_has_header(pairs_view(headers@), name@),
{
    let mut i: usize = 0;
    while i < headers.len()
        invariant
            i <= headers@.len(),
            forall|j: int|
                0 <= j < i ==> !eq_ignore_ascii_case(#[trigger] pairs_view(headers@)[j].0, name@),
        decreases headers@.len() - i,
    {
        if str_eq_ignore_ascii_case(headers[i].0.as_str(), name) {
            assert(pairs_view(headers@)[i as int].0 == headers@[i as int].0@);
            return true;
        }
        assert(pairs_view(headers@)[i as int].0 == headers@[i as int].0@);
        i = i + 1;
    }
    false
}

/// A status in the 2xx range.
pub open spec fn spec_is_success(status: u16) -> bool {
    200 <= status < 300
}

/// Whether a status is in the 2xx range (`StatusCode::is_success`).
pub fn is_success(status: u16) -> (success: bool)
    ensures
        success == spec_is_success(status),
{
    200 <= status && status < 300
}

} // verus!
