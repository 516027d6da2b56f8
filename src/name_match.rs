//! Product names compared with ASCII case folding: ASCII letters match either
//! case, every other byte of the UTF-8 text must be identical.
use vstd::prelude::*;
use vstd::string::StringSliceAdditionalSpecFns;
use vstd::utf8::{
    encode_utf8, encode_utf8_decode_utf8, is_ascii_chars, is_ascii_chars_encode_utf8,
};

verus! {

/// True for the bytes of the ASCII capitals `A` to `Z`.
pub open spec fn is_ascii_upper(b: u8) -> bool {
    65 <= b <= 90
}

/// True for the bytes of the ASCII small letters `a` to `z`.
pub open spec fn is_ascii_lower(b: u8) -> bool {
    97 <= b <= 122
}

/// A byte with an ASCII capital mapped to its small letter; every other
/// byte unchanged.
pub open spec fn fold_byte(b: u8) -> u8 {
    if is_ascii_upper(b) {
        (b + 32) as u8
    } else {
        b
    }
}

/// Two byte strings are equal once ASCII capitals are folded.
pub open spec fn bytes_match(a: Seq<u8>, b: Seq<u8>) -> bool {
    &&& a.len() == b.len()
    &&& forall|i: int| 0 <= i < a.len() ==> #[trigger] fold_byte(a[i]) == fold_byte(b[i])
}

/// Two names match when their UTF-8 encodings are equal up to ASCII case.
pub open spec fn names_match(a: Seq<char>, b: Seq<char>) -> bool {
    bytes_match(encode_utf8(a), encode_utf8(b))
}

/// `b` is `a` with the case of some ASCII letters changed.
pub open spec fn is_case_variant(a: Seq<char>, b: Seq<char>) -> bool {
    &&& a.len() == b.len()
    &&& forall|i: int|
        0 <= i < a.len() ==> {
            let x = a[i] as int;
            let y = b[i] as int;
            #[trigger] b[i] == a[i] || (65 <= x <= 90 && y == x + 32) || (97 <= x <= 122 && x
                == y + 32)
        }
}

/// True when no byte of `a` is an ASCII letter.
pub open spec fn has_no_ascii_letter(a: Seq<u8>) -> bool {
    forall|i: int| 0 <= i < a.len() ==> !is_ascii_upper(#[trigger] a[i]) && !is_ascii_lower(a[i])
}

/// `b` with an ASCII capital mapped to its small letter.
fn fold(b: u8) -> (r: u8)
    ensures
        r == fold_byte(b),
{
    if 65 <= b && b <= 90 {
        b + 32
    } else {
        b
    }
}

/// Whether `a` and `b` are equal up to the case of ASCII letters, comparing
/// their UTF-8 bytes one by one.
pub fn eq_ignore_ascii_case(a: &str, b: &str) -> (r: bool)
    ensures
        r == names_match(a@, b@),
{
    let x = a.as_bytes();
    let y = b.as_bytes();
    if x.len() != y.len() {
        return false;
    }
    let n = x.len();
    let mut i: usize = 0;
    while i < n
        invariant
            n == x@.len(),
            n == y@.len(),
            x@ == encode_utf8(a@),
            y@ == encode_utf8(b@),
            i <= n,
            forall|k: int| 0 <= k < i ==> #[trigger] fold_byte(x@[k]) == fold_byte(y@[k]),
        decreases n - i,
    {
        if fold(x[i]) != fold(y[i]) {
            return false;
        }
        i = i + 1;
    }
    true
}

/// An ASCII name matches every name that differs from it only in the case of
/// its letters, both ways round.
pub proof fn lemma_case_variant_matches(a: Seq<char>, b: Seq<char>)
    requires
        is_ascii_chars(a),
        is_case_variant(a, b),
    ensures
        names_match(a, b),
        names_match(b, a),
{
    assert forall|i: int| 0 <= i < b.len() implies '\0' <= #[trigger] b[i] <= '\u{7f}' by {
        assert('\0' <= a[i] <= '\u{7f}');
        assert((b[i] as int) < 128);
    }
    assert(is_ascii_chars(b));
    is_ascii_chars_encode_utf8(a);
    is_ascii_chars_encode_utf8(b);
    let ea = encode_utf8(a);
    let eb = encode_utf8(b);
    assert forall|i: int| 0 <= i < ea.len() implies #[trigger] fold_byte(ea[i]) == fold_byte(
        eb[i],
    ) by {
        assert(ea[i] == a[i] as u8);
        assert(eb[i] == b[i] as u8);
        assert(b[i] == a[i] || (65 <= a[i] as int <= 90 && b[i] as int == a[i] as int + 32) || (97
            <= a[i] as int <= 122 && a[i] as int == b[i] as int + 32));
    }
}

/// Bytes outside ASCII are never folded: where two names match, every
/// non-ASCII byte of one stands unchanged at the same place in the other.
pub proof fn lemma_non_ascii_bytes_exact(a: Seq<char>, b: Seq<char>)
    requires
        names_match(a, b),
    ensures
        encode_utf8(a).len() == encode_utf8(b).len(),
        forall|i: int|
            0 <= i < encode_utf8(a).len() && #[trigger] encode_utf8(a)[i] >= 128 ==> encode_utf8(
                b,
            )[i] == encode_utf8(a)[i],
{
    let ea = encode_utf8(a);
    let eb = encode_utf8(b);
    assert forall|i: int| 0 <= i < ea.len() && #[trigger] ea[i] >= 128 implies eb[i] == ea[i] by {
        assert(fold_byte(ea[i]) == fold_byte(eb[i]));
    }
}

/// A name whose UTF-8 encoding holds no ASCII letter matches exactly the
/// identical name: nothing in it is case-folded.
pub proof fn lemma_no_letters_match_exactly(a: Seq<char>, b: Seq<char>)
    requires
        has_no_ascii_letter(encode_utf8(a)),
    ensures
        names_match(a, b) <==> a == b,
{
    let ea = encode_utf8(a);
    let eb = encode_utf8(b);
    if names_match(a, b) {
        assert forall|i: int| 0 <= i < ea.len() implies ea[i] == eb[i] by {
            assert(fold_byte(ea[i]) == fold_byte(eb[i]));
            assert(!is_ascii_upper(ea[i]) && !is_ascii_lower(ea[i]));
        }
        assert(ea =~= eb);
        encode_utf8_decode_utf8(a);
        encode_utf8_decode_utf8(b);
    }
}

} // verus!
