//! Decimal numbers as text, and names that are not taken yet.

use crate::table::TextTable;
use vstd::prelude::*;

verus! {

/// The character of the decimal digit `d`.
pub open spec fn digit(d: int) -> char {
    ('0' as int + d) as char
}

/// The decimal digits of `n`, without leading zeros.
pub open spec fn decimal(n: nat) -> Seq<char>
    decreases n,
{
    if n < 10 {
        seq![digit(n as int)]
    } else {
        decimal(n / 10).push(digit((n % 10) as int))
    }
}

/// The name made of `base`, an underscore and the number `n`.
pub open spec fn numbered(base: Seq<char>, n: nat) -> Seq<char> {
    base.push('_') + decimal(n)
}

/// `name` is the first free one among `base`, `base_1`, `base_2` and so on.
pub open spec fn first_free(base: Seq<char>, taken: Set<Seq<char>>, name: Seq<char>) -> bool {
    if !taken.contains(base) {
        name == base
    } else {
        exists|n: nat|
            {
                &&& 1 <= n
                &&& name == #[trigger] numbered(base, n)
                &&& !taken.contains(name)
                &&& forall|m: nat| 1 <= m < n ==> taken.contains(#[trigger] numbered(base, m))
            }
    }
}

/// Different numbers have different digits.
pub proof fn decimal_is_injective(a: nat, b: nat)
    requires
        decimal(a) == decimal(b),
    ensures
        a == b,
    decreases a,
{
    decimal_is_not_empty(a / 10);
    decimal_is_not_empty(b / 10);
    assert(decimal(a).last() == digit((a % 10) as int));
    assert(decimal(b).last() == digit((b % 10) as int));
    assert(digit((a % 10) as int) as int == '0' as int + a % 10);
    assert(digit((b % 10) as int) as int == '0' as int + b % 10);
    if a >= 10 && b >= 10 {
        assert(decimal(a).drop_last() =~= decimal(a / 10));
        assert(decimal(b).drop_last() =~= decimal(b / 10));
        decimal_is_injective(a / 10, b / 10);
    }
}

proof fn decimal_is_not_empty(n: nat)
    ensures
        decimal(n).len() >= 1,
{
}

/// Numbered names of one base differ from each other and from the base.
proof fn numbered_is_injective(base: Seq<char>, a: nat, b: nat)
    ensures
        numbered(base, a) == numbered(base, b) ==> a == b,
        numbered(base, a) != base,
{
    decimal_is_not_empty(a);
    assert(numbered(base, a).len() > base.len());
    if numbered(base, a) == numbered(base, b) {
        let k = base.len() as int + 1;
        assert(numbered(base, a).skip(k) =~= decimal(a));
        assert(numbered(base, b).skip(k) =~= decimal(b));
        decimal_is_injective(a, b);
    }
}

/// If `base` and its first `count` numbered names are all taken, then more than
/// `count` names are taken.
proof fn taken_names_bound(base: Seq<char>, taken: Set<Seq<char>>, count: nat)
    requires
        taken.finite(),
        taken.contains(base),
        forall|m: nat| 1 <= m <= count ==> taken.contains(#[trigger] numbered(base, m)),
    ensures
        count < taken.len(),
{
    let names = Seq::new(count, |i: int| numbered(base, (i + 1) as nat)).push(base);
    assert forall|i: int, j: int| 0 <= i < names.len() && 0 <= j < names.len() && i != j implies names[i]
        != names[j] by {
        numbered_is_injective(base, (i + 1) as nat, (j + 1) as nat);
        numbered_is_injective(base, (j + 1) as nat, (i + 1) as nat);
    }
    names.unique_seq_to_set();
    assert(names.to_set().subset_of(taken)) by {
        assert forall|k: Seq<char>| names.to_set().contains(k) implies taken.contains(k) by {
            let i = choose|i: int| 0 <= i < names.len() && names[i] == k;
            if i < count {
                assert(taken.contains(numbered(base, (i + 1) as nat)));
            }
        }
    }
    vstd::set_lib::lemma_len_subset(names.to_set(), taken);
}

fn digit_text(d: u64) -> (text: &'static str)
    requires
        d < 10,
    ensures
        text@ == seq![digit(d as int)],
{
    proof {
        reveal_strlit("0");
        reveal_strlit("1");
        reveal_strlit("2");
        reveal_strlit("3");
        reveal_strlit("4");
        reveal_strlit("5");
        reveal_strlit("6");
        reveal_strlit("7");
        reveal_strlit("8");
        reveal_strlit("9");
    }
    let text = match d {
        0 => "0",
        1 => "1",
        2 => "2",
        3 => "3",
        4 => "4",
        5 => "5",
        6 => "6",
        7 => "7",
        8 => "8",
        _ => "9",
    };
    assert(text@ =~= seq![digit(d as int)]);
    text
}

/// Writes `n` in decimal digits.
pub fn decimal_text(n: u64) -> (text: String)
    ensures
        text@ == decimal(n as nat),
    decreases n,
{
    if n < 10 {
        digit_text(n).to_owned()
    } else {
        let text = decimal_text(n / 10).concat(digit_text(n % 10));
        assert(text@ =~= decimal((n / 10) as nat).push(digit((n % 10) as int)));
        text
    }
}

/// Picks the first name that `map` does not hold among `base`, `base_1`, `base_2` and so on.
pub fn make_unique<T>(base: String, map: &TextTable<T>) -> (name: String)
    requires
        map.wf(),
    ensures
        first_free(base@, map@.dom(), name@),
        !map@.contains_key(name@),
{
    if !map.contains_key(base.as_str()) {
        return base;
    }
    let ghost taken = map@.dom();
    let len: usize = map.len();
    let stem = base.concat("_");
    let mut counter: u64 = 1;
    proof {
        reveal_strlit("_");
    }
    assert(stem@ =~= base@.push('_'));
    loop
        invariant
            taken == map@.dom(),
            taken.finite(),
            taken.contains(base@),
            len == taken.len(),
            stem@ == base@.push('_'),
            1 <= counter <= len,
            forall|m: nat| 1 <= m < counter ==> taken.contains(#[trigger] numbered(base@, m)),
        decreases len - counter,
    {
        let candidate = stem.clone().concat(decimal_text(counter).as_str());
        assert(candidate@ == numbered(base@, counter as nat));
        if !map.contains_key(candidate.as_str()) {
            return candidate;
        }
        proof {
            taken_names_bound(base@, taken, counter as nat);
        }
        counter = counter + 1;
    }
}

/// Whether `c` is a decimal digit.
pub open spec fn is_digit(c: char) -> bool {
    '0' <= c <= '9'
}

/// Whether `s` holds nothing but decimal digits.
pub open spec fn all_digits(s: Seq<char>) -> bool {
    forall|i: int| 0 <= i < s.len() ==> is_digit(#[trigger] s[i])
}

/// The number that the decimal digits `s` stand for.
pub open spec fn digits_value(s: Seq<char>) -> nat
    decreases s.len(),
{
    if s.len() == 0 {
        0
    } else {
        (digits_value(s.drop_last()) * 10 + (s.last() as int - '0' as int)) as nat
    }
}

/// Whether `s` begins with a plus or a minus.
pub open spec fn has_sign(s: Seq<char>) -> bool {
    s.len() > 0 && (s[0] == '+' || s[0] == '-')
}

/// The integer that `s` spells: an optional sign, then one or more decimal
/// digits and nothing else, with a value that an `i64` holds.
pub open spec fn integer_value(s: Seq<char>) -> Option<int> {
    let digits = if has_sign(s) {
        s.skip(1)
    } else {
        s
    };
    let value = if has_sign(s) && s[0] == '-' {
        -digits_value(digits)
    } else {
        digits_value(digits) as int
    };
    if digits.len() > 0 && all_digits(digits) && i64::MIN <= value <= i64::MAX {
        Some(value)
    } else {
        None
    }
}

/// Whether both texts are the same.
pub fn same_text(a: &str, b: &str) -> (same: bool)
    ensures
        same == (a@ == b@),
{
    a.to_owned() == b.to_owned()
}

/// The characters of `text`, one by one.
pub fn characters(text: &str) -> (chars: Vec<char>)
    ensures
        chars@ == text@,
{
    let mut chars: Vec<char> = Vec::new();
    for c in it: text.chars()
        invariant
            it.seq() == text@,
            chars@ == text@.take(it.index()),
    {
        chars.push(c);
        assert(chars@ =~= text@.take(it.index() + 1));
    }
    assert(text@.take(text@.len() as int) =~= text@);
    chars
}

/// Reads a signed decimal integer.
pub fn parse_integer(text: &str) -> (number: Option<i64>)
    ensures
        match number {
            Some(n) => integer_value(text@) == Some(n as int),
            None => integer_value(text@) is None,
        },
{
    let chars = characters(text);
    let signed: bool = chars.len() > 0 && (chars[0] == '+' || chars[0] == '-');
    let negative: bool = signed && chars[0] == '-';
    let start: usize = if signed {
        1
    } else {
        0
    };
    let ghost digits = chars@.skip(start as int);
    assert(!signed ==> digits =~= chars@);
    if chars.len() == start {
        return None;
    }
    let mut next: usize = start;
    let mut value: i128 = 0;
    let mut too_big: bool = false;
    while next < chars.len()
        invariant
            start <= next <= chars.len(),
            digits == chars@.skip(start as int),
            digits == (if has_sign(text@) {
                text@.skip(1)
            } else {
                text@
            }),
            forall|i: int| 0 <= i < next - start ==> is_digit(#[trigger] digits[i]),
            0 <= value <= 0x8000_0000_0000_0000,
            too_big ==> digits_value(digits.take(next - start)) > 0x8000_0000_0000_0000,
            !too_big ==> value == digits_value(digits.take(next - start)),
        decreases chars.len() - next,
    {
        let c: char = chars[next];
        assert(digits[next - start] == c);
        if c < '0' || c > '9' {
            return None;
        }
        proof {
            let read = digits.take(next + 1 - start);
            assert(read.drop_last() =~= digits.take(next - start));
            assert(read.last() == c);
        }
        let grown: i128 = value * 10 + (c as i128 - '0' as i128);
        if grown > 0x8000_0000_0000_0000 {
            too_big = true;
        } else {
            value = grown;
        }
        next = next + 1;
    }
    assert(digits.take(chars.len() - start) =~= digits);
    if too_big {
        None
    } else if negative {
        Some((-value) as i64)
    } else if value <= 0x7fff_ffff_ffff_ffff {
        Some(value as i64)
    } else {
        None
    }
}

} // verus!
