//! Padded base64 with the URL-safe alphabet.

use vstd::prelude::*;

verus! {

/// Whether `c` is a character of padded URL-safe base64.
pub open spec fn is_base64_char(c: char) -> bool {
    'A' <= c <= 'Z' || 'a' <= c <= 'z' || '0' <= c <= '9' || c == '-' || c == '_' || c == '='
}

/// Whether `s` holds only characters of padded URL-safe base64.
pub open spec fn is_base64_shaped(s: Seq<char>) -> bool {
    forall|i: int| 0 <= i < s.len() ==> is_base64_char(#[trigger] s[i])
}

/// The number of characters in the padded base64 of `n` bytes.
pub open spec fn base64_len(n: nat) -> nat {
    4 * ((n + 2) / 3)
}

/// The character for the six bits of `n`.
pub open spec fn base64_symbol(n: int) -> char {
    if n < 26 {
        ('A' as int + n) as char
    } else if n < 52 {
        ('a' as int + n - 26) as char
    } else if n < 62 {
        ('0' as int + n - 52) as char
    } else if n == 62 {
        '-'
    } else {
        '_'
    }
}

/// The byte at `i`, or zero behind the end.
pub open spec fn byte_at(bytes: Seq<u8>, i: int) -> int {
    if i < bytes.len() {
        bytes[i] as int
    } else {
        0
    }
}

/// The four characters for the first three bytes. Where there are fewer, padding stands
/// for what is missing.
pub open spec fn base64_group(bytes: Seq<u8>) -> Seq<char> {
    let (a, b, c) = (byte_at(bytes, 0), byte_at(bytes, 1), byte_at(bytes, 2));
    seq![
        base64_symbol(a / 4),
        base64_symbol(a % 4 * 16 + b / 16),
        if bytes.len() > 1 {
            base64_symbol(b % 16 * 4 + c / 64)
        } else {
            '='
        },
        if bytes.len() > 2 {
            base64_symbol(c % 64)
        } else {
            '='
        },
    ]
}

/// The bytes behind the first three.
pub open spec fn behind_group(bytes: Seq<u8>) -> Seq<u8> {
    if bytes.len() > 3 {
        bytes.skip(3)
    } else {
        Seq::empty()
    }
}

/// The base64 of `bytes`: one group after the other.
pub open spec fn base64_text(bytes: Seq<u8>) -> Seq<char>
    decreases bytes.len(),
{
    if bytes.len() == 0 {
        Seq::empty()
    } else {
        base64_group(bytes) + base64_text(behind_group(bytes))
    }
}

/// Whether `text` is the base64 of some bytes.
pub open spec fn is_base64(text: Seq<char>) -> bool {
    exists|bytes: Seq<u8>| text == #[trigger] base64_text(bytes)
}

/// Whether `text` is the base64 of `len` bytes.
pub open spec fn is_base64_of(text: Seq<char>, len: nat) -> bool {
    exists|bytes: Seq<u8>| bytes.len() == len && text == #[trigger] base64_text(bytes)
}

/// The base64 of bytes holds only characters of its alphabet, and four for every three
/// bytes or part of them.
pub proof fn base64_is_shaped(bytes: Seq<u8>)
    ensures
        is_base64_shaped(base64_text(bytes)),
        base64_text(bytes).len() == base64_len(bytes.len()),
    decreases bytes.len(),
{
    if bytes.len() > 0 {
        base64_is_shaped(behind_group(bytes));
    }
}

proof fn symbol_is_injective(m: int, n: int)
    requires
        0 <= m < 64,
        0 <= n < 64,
        base64_symbol(m) == base64_symbol(n),
    ensures
        m == n,
        base64_symbol(m) != '=',
{
}

proof fn group_is_injective(a: Seq<u8>, b: Seq<u8>)
    requires
        a.len() > 0,
        b.len() > 0,
        base64_group(a) == base64_group(b),
    ensures
        forall|i: int| 0 <= i < 3 ==> byte_at(a, i) == byte_at(b, i),
        a.len() == b.len() || (a.len() >= 3 && b.len() >= 3),
{
    let (a0, a1, a2) = (byte_at(a, 0), byte_at(a, 1), byte_at(a, 2));
    let (b0, b1, b2) = (byte_at(b, 0), byte_at(b, 1), byte_at(b, 2));
    let (p, q) = (base64_group(a), base64_group(b));
    assert(p[0] == q[0] && p[1] == q[1] && p[2] == q[2] && p[3] == q[3]);
    symbol_is_injective(a0 / 4, b0 / 4);
    symbol_is_injective(a0 % 4 * 16 + a1 / 16, b0 % 4 * 16 + b1 / 16);
    assert(a0 == b0 && a1 / 16 == b1 / 16);
    symbol_is_injective(a1 % 16 * 4 + a2 / 64, a1 % 16 * 4 + a2 / 64);
    symbol_is_injective(b1 % 16 * 4 + b2 / 64, b1 % 16 * 4 + b2 / 64);
    symbol_is_injective(a2 % 64, a2 % 64);
    symbol_is_injective(b2 % 64, b2 % 64);
    if a.len() > 1 {
        symbol_is_injective(a1 % 16 * 4 + a2 / 64, b1 % 16 * 4 + b2 / 64);
        assert(a1 == b1 && a2 / 64 == b2 / 64);
    }
    if a.len() > 2 {
        symbol_is_injective(a2 % 64, b2 % 64);
        assert(a2 == b2);
    }
}

/// Different bytes have different base64: no two tokens share their text, and no two
/// hashes the name of their data.
pub proof fn base64_is_injective(a: Seq<u8>, b: Seq<u8>)
    requires
        base64_text(a) == base64_text(b),
    ensures
        a == b,
    decreases a.len(),
{
    base64_is_shaped(a);
    base64_is_shaped(b);
    if a.len() > 0 && b.len() > 0 {
        let (ra, rb) = (behind_group(a), behind_group(b));
        assert(base64_group(a) =~= base64_text(a).take(4));
        assert(base64_group(b) =~= base64_text(b).take(4));
        assert(base64_text(ra) =~= base64_text(a).skip(4));
        assert(base64_text(rb) =~= base64_text(b).skip(4));
        group_is_injective(a, b);
        base64_is_injective(ra, rb);
        assert(a.len() == b.len());
        assert forall|i: int| 0 <= i < a.len() implies a[i] == b[i] by {
            if i < 3 {
                assert(byte_at(a, i) == byte_at(b, i));
            } else {
                assert(ra[i - 3] == a[i] && rb[i - 3] == b[i]);
            }
        }
    }
    assert(a =~= b);
}

} // verus!
