//! Text helpers: comparing string slices and decoding the bytes a child
//! process wrote.

use vstd::prelude::*;
use vstd::string::*;
use vstd::utf8::*;

verus! {

/// The text that lossy UTF-8 decoding makes of a byte sequence: well-formed
/// parts decode to their characters, and each ill-formed part is replaced by
/// U+FFFD.
pub uninterp spec fn utf8_lossy(bytes: Seq<u8>) -> Seq<char>;

/// Decodes bytes with `String::from_utf8_lossy` and takes the result as an
/// owned string.
///
/// Trusted: the contract only gives the decoded text its name, `utf8_lossy`;
/// the decoding is a function of the bytes alone.
#[verifier::external_body]
pub(crate) fn decode_lossy(bytes: &[u8]) -> (text: String)
    ensures
        text@ == utf8_lossy(bytes@),
{
    String::from_utf8_lossy(bytes).into_owned()
}

/// Whether two string slices hold the same characters.
///
/// Compares the UTF-8 encodings byte by byte; the encoding is injective, so
/// the bytes agree exactly when the characters do.
pub fn str_eq(a: &str, b: &str) -> (same: bool)
    ensures
        same == (a@ == b@),
{
    let x = a.as_bytes();
    let y = b.as_bytes();
    proof {
        encode_utf8_decode_utf8(a@);
        encode_utf8_decode_utf8(b@);
    }
    if x.len() != y.len() {
        return false;
    }
    let mut i: usize = 0;
    while i < x.len()
        invariant
            i <= x.len(),
            x.len() == y.len(),
            x@ == encode_utf8(a@),
            y@ == encode_utf8(b@),
            forall|j: int| 0 <= j < i ==> x@[j] == y@[j],
        decreases x.len() - i,
    {
        if x[i] != y[i] {
            return false;
        }
        i += 1;
    }
    assert(x@ =~= y@);
    true
}

} // verus!
