//! Window titles arrive from the window system as null-terminated UTF-16
//! code units. This module cuts the buffer at the first null and decodes it,
//! reporting malformed UTF-16 as an error instead of failing the scan.

use vstd::prelude::*;

verus! {

/// The units before the terminator were not well-formed UTF-16. The caller
/// logs the failure and skips the window; the scan goes on.
#[derive(Clone, Copy, Debug, PartialEq, Eq, Structural)]
pub struct TitleDecodeError;

/// What decoding a sequence of UTF-16 code units yields: the decoded text,
/// or nothing when the units are not well-formed UTF-16.
pub uninterp spec fn utf16_decoded(units: Seq<u16>) -> Option<Seq<char>>;

/// Relies on `String::from_utf16`: it succeeds exactly on well-formed UTF-16
/// and the decoded text is a function of the code units alone.
#[verifier::external_body]
fn decode_utf16_units(units: &[u16]) -> (r: Result<String, TitleDecodeError>)
    ensures
        r is Ok <==> utf16_decoded(units@) is Some,
        r matches Ok(s) ==> utf16_decoded(units@) == Some(s@),
{
    String::from_utf16(units).map_err(|_| TitleDecodeError)
}

/// Index of the first null unit, or the length when there is none: the
/// buffer's meaningful prefix ends there.
pub open spec fn first_null_index(s: Seq<u16>) -> int
    decreases s.len(),
{
    if s.len() == 0 {
        0
    } else if s[0] == 0 {
        0
    } else {
        1 + first_null_index(s.skip(1))
    }
}

/// The code units that make up the title: everything before the first null.
pub open spec fn title_units(s: Seq<u16>) -> Seq<u16> {
    s.take(first_null_index(s))
}

/// `first_null_index` is the unique cut: everything before it is non-null,
/// and it points at a null unless it is the length.
proof fn lemma_first_null_index_at(s: Seq<u16>, cut: int)
    requires
        0 <= cut <= s.len(),
        forall|j: int| 0 <= j < cut ==> s[j] != 0,
        cut < s.len() ==> s[cut] == 0,
    ensures
        first_null_index(s) == cut,
    decreases cut,
{
    if cut == 0 {
    } else {
        assert(s[0] != 0);
        let t = s.skip(1);
        assert forall|j: int| 0 <= j < cut - 1 implies t[j] != 0 by {
            assert(t[j] == s[j + 1]);
        }
        if cut - 1 < t.len() {
            assert(t[cut - 1] == s[cut]);
        }
        lemma_first_null_index_at(t, cut - 1);
    }
}

/// Decode a null-terminated UTF-16 buffer: the units before the first null
/// (or the whole buffer, when no null occurs) become the title text, and
/// malformed UTF-16 is reported as `TitleDecodeError`.
pub fn wide_string_to_string(wide_string: &[u16]) -> (r: Result<String, TitleDecodeError>)
    ensures
        r is Ok <==> utf16_decoded(title_units(wide_string@)) is Some,
        r matches Ok(s) ==> utf16_decoded(title_units(wide_string@)) == Some(s@),
{
    let mut cut: usize = 0;
    while cut < wide_string.len() && wide_string[cut] != 0
        invariant
            0 <= cut <= wide_string@.len(),
            forall|j: int| 0 <= j < cut ==> wide_string@[j] != 0,
        decreases wide_string@.len() - cut,
    {
        cut = cut + 1;
    }
    proof {
        lemma_first_null_index_at(wide_string@, cut as int);
        assert(wide_string@.subrange(0, cut as int) == title_units(wide_string@));
    }
    decode_utf16_units(&wide_string[0..cut])
}

} // verus!
