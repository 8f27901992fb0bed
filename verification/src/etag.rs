//! The validator sent as `ETag`: a content digest in lowercase hexadecimal.

use vstd::prelude::*;

verus! {

/// The sixteen lowercase hexadecimal digits, in order of their value.
pub open spec fn hex_digits() -> Seq<char> {
    seq!['0', '1', '2', '3', '4', '5', '6', '7', '8', '9', 'a', 'b', 'c', 'd', 'e', 'f']
}

/// Two lowercase hexadecimal digits for each byte of `data`, the digit of
/// the high half of a byte before that of its low half.
pub open spec fn lower_hex(data: Seq<u8>) -> Seq<char> {
    Seq::new(
        2 * data.len(),
        |i: int|
            if i % 2 == 0 {
                hex_digits()[data[i / 2] as int / 16]
            } else {
                hex_digits()[data[i / 2] as int % 16]
            },
    )
}

/// Whether `c` is a lowercase hexadecimal digit.
pub open spec fn is_hex_digit(c: char) -> bool {
    hex_digits().contains(c)
}

/// The encoding is twice as long as the data and holds hexadecimal digits only.
pub proof fn lemma_lower_hex_shape(data: Seq<u8>)
    ensures
        lower_hex(data).len() == 2 * data.len(),
        forall|i: int| 0 <= i < lower_hex(data).len() ==> is_hex_digit(#[trigger] lower_hex(data)[i]),
{
    assert forall|i: int| 0 <= i < lower_hex(data).len() implies is_hex_digit(
        #[trigger] lower_hex(data)[i],
    ) by {
        let b = data[i / 2] as int;
        let n = if i % 2 == 0 {
            b / 16
        } else {
            b % 16
        };
        assert(0 <= n < 16);
        assert(hex_digits()[n] == lower_hex(data)[i]);
    }
}

/// The encoding tells the data: two digests with the same validator are equal.
pub proof fn lemma_lower_hex_injective(a: Seq<u8>, b: Seq<u8>)
    requires
        lower_hex(a) == lower_hex(b),
    ensures
        a == b,
{
    assert(lower_hex(a).len() == 2 * a.len());
    assert(lower_hex(b).len() == 2 * b.len());
    assert(a.len() == b.len());
    assert forall|k: int| 0 <= k < a.len() implies a[k] == b[k] by {
        let x = a[k] as int;
        let y = b[k] as int;
        assert((2 * k) / 2 == k && (2 * k) % 2 == 0);
        assert((2 * k + 1) / 2 == k && (2 * k + 1) % 2 == 1);
        assert(lower_hex(a)[2 * k] == hex_digits()[x / 16]);
        assert(lower_hex(b)[2 * k] == hex_digits()[y / 16]);
        assert(lower_hex(a)[2 * k + 1] == hex_digits()[x % 16]);
        assert(lower_hex(b)[2 * k + 1] == hex_digits()[y % 16]);
        lemma_hex_digits_distinct(x / 16, y / 16);
        lemma_hex_digits_distinct(x % 16, y % 16);
    }
    assert(a =~= b);
}

/// Different values have different digits.
pub proof fn lemma_hex_digits_distinct(m: int, n: int)
    requires
        0 <= m < 16,
        0 <= n < 16,
        hex_digits()[m] == hex_digits()[n],
    ensures
        m == n,
{
}

/// Calls `hex::encode`, which writes each byte as two characters taken from
/// `0123456789abcdef`: first the one for the byte's high four bits, then the
/// one for its low four bits.
#[verifier::external_body]
pub(crate) fn hex_encode(data: &[u8]) -> (text: String)
    ensures
        text@ == lower_hex(data@),
{
    hex::encode(data)
}

/// The validator for a content digest.
pub fn entity_tag(digest: &[u8]) -> (tag: String)
    ensures
        tag@ == lower_hex(digest@),
{
    hex_encode(digest)
}

} // verus!
