//! Lower-case hexadecimal encoding of bytes, two digits per byte
//! (the `{:02x}` rendering).

use vstd::prelude::*;
use crate::text::push_char;

verus! {

/// The lower-case hexadecimal digit for `n` in `0..16`.
pub open spec fn hex_digit(n: int) -> char {
    if n < 10 {
        (n + 48) as char
    } else {
        (n + 87) as char
    }
}

/// Whether `c` is one of `0-9` or `a-f`.
pub open spec fn is_lower_hex_char(c: char) -> bool {
    ('0' <= c && c <= '9') || ('a' <= c && c <= 'f')
}

/// Each byte rendered as two lower-case hex digits, high nibble first.
pub open spec fn hex_lower(bytes: Seq<u8>) -> Seq<char>
    decreases bytes.len(),
{
    if bytes.len() == 0 {
        seq![]
    } else {
        hex_lower(bytes.drop_last()) + seq![
            hex_digit(bytes.last() as int / 16),
            hex_digit(bytes.last() as int % 16),
        ]
    }
}

/// The encoding has two characters per byte, and the characters at
/// `2 * k` and `2 * k + 1` are the high and low digits of byte `k`.
pub proof fn lemma_hex_lower_index(bytes: Seq<u8>)
    ensures
        hex_lower(bytes).len() == 2 * bytes.len(),
        forall|k: int|
            0 <= k < bytes.len() ==> {
                &&& #[trigger] hex_lower(bytes)[2 * k] == hex_digit(bytes[k] as int / 16)
                &&& hex_lower(bytes)[2 * k + 1] == hex_digit(bytes[k] as int % 16)
            },
    decreases bytes.len(),
{
    if bytes.len() > 0 {
        let init = bytes.drop_last();
        lemma_hex_lower_index(init);
        assert forall|k: int| 0 <= k < bytes.len() implies {
            &&& #[trigger] hex_lower(bytes)[2 * k] == hex_digit(bytes[k] as int / 16)
            &&& hex_lower(bytes)[2 * k + 1] == hex_digit(bytes[k] as int % 16)
        } by {
            if k < init.len() {
                assert(init[k] == bytes[k]);
            }
        }
    }
}

/// Every digit is a lower-case hexadecimal character.
pub proof fn lemma_hex_digit_is_hex(n: int)
    requires
        0 <= n < 16,
    ensures
        is_lower_hex_char(hex_digit(n)),
{
}

/// Different digits for different nibbles.
pub proof fn lemma_hex_digit_injective(m: int, n: int)
    requires
        0 <= m < 16,
        0 <= n < 16,
        hex_digit(m) == hex_digit(n),
    ensures
        m == n,
{
}

/// The encoding is made of lower-case hex characters only, two per byte.
pub proof fn lemma_hex_lower_alphabet(bytes: Seq<u8>)
    ensures
        hex_lower(bytes).len() == 2 * bytes.len(),
        forall|i: int| 0 <= i < hex_lower(bytes).len() ==> is_lower_hex_char(#[trigger] hex_lower(bytes)[i]),
{
    lemma_hex_lower_index(bytes);
    assert forall|i: int| 0 <= i < hex_lower(bytes).len() implies is_lower_hex_char(#[trigger] hex_lower(bytes)[i]) by {
        let k = i / 2;
        assert(0 <= k < bytes.len());
        if i % 2 == 0 {
            assert(i == 2 * k);
            assert(hex_lower(bytes)[2 * k] == hex_digit(bytes[k] as int / 16));
            lemma_hex_digit_is_hex(bytes[k] as int / 16);
        } else {
            assert(i == 2 * k + 1);
            assert(hex_lower(bytes)[2 * k] == hex_digit(bytes[k] as int / 16));
            assert(hex_lower(bytes)[2 * k + 1] == hex_digit(bytes[k] as int % 16));
            lemma_hex_digit_is_hex(bytes[k] as int % 16);
        }
    }
}

/// Different byte strings have different encodings.
pub proof fn lemma_hex_lower_injective(a: Seq<u8>, b: Seq<u8>)
    requires
        hex_lower(a) == hex_lower(b),
    ensures
        a == b,
{
    lemma_hex_lower_index(a);
    lemma_hex_lower_index(b);
    assert(a.len() == b.len());
    assert forall|k: int| 0 <= k < a.len() implies a[k] == b[k] by {
        assert(hex_lower(a)[2 * k] == hex_digit(a[k] as int / 16));
        assert(hex_lower(b)[2 * k] == hex_digit(b[k] as int / 16));
        assert(hex_lower(a)[2 * k + 1] == hex_digit(a[k] as int % 16));
        assert(hex_lower(b)[2 * k + 1] == hex_digit(b[k] as int % 16));
        lemma_hex_digit_injective(a[k] as int / 16, b[k] as int / 16);
        lemma_hex_digit_injective(a[k] as int % 16, b[k] as int % 16);
    }
    assert(a =~= b);
}

/// The lower-case hex digit for a nibble.
pub fn hex_digit_char(n: u8) -> (c: char)
    requires
        n < 16,
    ensures
        c == hex_digit(n as int),
{
    if n < 10 {
        (n + 48) as char
    } else {
        (n + 87) as char
    }
}

/// Renders `bytes` as lower-case hexadecimal, two digits per byte.
pub fn to_hex_lower(bytes: &[u8]) -> (s: String)
    ensures
        s@ == hex_lower(bytes@),
{
    let mut s = String::new();
    let n = bytes.len();
    for i in 0..n
        invariant
            n == bytes@.len(),
            s@ == hex_lower(bytes@.take(i as int)),
    {
        let b = bytes[i];
        push_char(&mut s, hex_digit_char(b / 16));
        push_char(&mut s, hex_digit_char(b % 16));
        assert(bytes@.take(i + 1).drop_last() =~= bytes@.take(i as int));
    }
    assert(bytes@.take(n as int) =~= bytes@);
    s
}

} // verus!
