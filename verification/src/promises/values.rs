//! What texts, tokens, hashes, dates and tables give, call by call.

use crate::encoding::base64_text;
use crate::filesystem::LocalTokenizedFilesystem;
use crate::outside::{formatted_time, xxh3_128_of, zoned_plus_span, DecodeError};
use crate::settings::{adhoc_certificate, AdhocCertificate, CertificateError};
use crate::table::TextTable;
use crate::text::{characters, decimal, decimal_text, make_unique, parse_integer, same_text};
use crate::time::{DateOverflow, Span, SpanUnits, UtcTime};
use crate::token::{big_endian, exact_bytes, hash_fits_its_number, hash_is_its_number};
use crate::token::{UserToken, XXH3_128Hash};
use vstd::prelude::*;

verus! {

/// The number that decimal digits stand for, read from the left.
pub open spec fn value_of(digits: Seq<char>) -> int
    decreases digits.len(),
{
    if digits.len() == 0 {
        0
    } else {
        value_of(digits.drop_last()) * 10 + (digits.last() as int - '0' as int)
    }
}

/// Whether there is nothing but decimal digits.
pub open spec fn only_digits(s: Seq<char>) -> bool {
    forall|i: int| 0 <= i < s.len() ==> '0' <= #[trigger] s[i] <= '9'
}

proof fn decimals_have_their_value(n: nat)
    ensures
        only_digits(decimal(n)),
        value_of(decimal(n)) == n,
        decimal(n).len() >= 1,
        n > 0 ==> decimal(n)[0] != '0',
    decreases n,
{
    if n >= 10 {
        decimals_have_their_value(n / 10);
        assert(decimal(n).drop_last() =~= decimal(n / 10));
        assert(decimal(n)[0] == decimal(n / 10)[0]);
    } else {
        assert(decimal(n).drop_last() =~= Seq::<char>::empty());
        assert(value_of(Seq::<char>::empty()) == 0);
    }
}

/// A number is written in digits that stand for it, without a leading zero.
pub proof fn numbers_are_written_in_digits(n: u64, text: String)
    requires
        call_ensures(decimal_text, (n,), text),
    ensures
        only_digits(text@),
        text@.len() >= 1,
        value_of(text@) == n,
        n > 0 ==> text@[0] != '0',
{
    decimals_have_their_value(n as nat);
}

proof fn values_agree(s: Seq<char>)
    requires
        only_digits(s),
    ensures
        value_of(s) == crate::text::digits_value(s),
        crate::text::all_digits(s),
    decreases s.len(),
{
    if s.len() > 0 {
        assert(only_digits(s.drop_last())) by {
            assert forall|i: int| 0 <= i < s.len() - 1 implies '0' <= #[trigger] s.drop_last()[i]
                <= '9' by {
                assert('0' <= s[i] <= '9');
            }
        }
        values_agree(s.drop_last());
        assert('0' <= s[s.len() - 1] <= '9');
    }
}

/// Digits are read as the number that they stand for, where it fits, with or without a
/// plus, and as its negative behind a minus.
pub proof fn digits_are_read_as_their_value(
    digits: Seq<char>,
    text: &str,
    number: Option<i64>,
)
    requires
        call_ensures(parse_integer, (text,), number),
        digits.len() >= 1,
        only_digits(digits),
        text@ == digits || text@ == seq!['+'] + digits || text@ == seq!['-'] + digits,
    ensures
        ({
            let value = if text@ == seq!['-'] + digits {
                -value_of(digits)
            } else {
                value_of(digits)
            };
            &&& number is Some <==> i64::MIN <= value <= i64::MAX
            &&& number is Some ==> number->0 == value
        }),
{
    values_agree(digits);
    assert('0' <= digits[0] <= '9');
    assert((seq!['+'] + digits).skip(1) =~= digits);
    assert((seq!['-'] + digits).skip(1) =~= digits);
    assert((seq!['+'] + digits)[0] == '+');
    assert((seq!['-'] + digits)[0] == '-');
}

/// A text is read as a number only if it consists of digits behind at most one sign.
pub proof fn only_digits_are_read_as_numbers(text: &str, number: Option<i64>)
    requires
        call_ensures(parse_integer, (text,), number),
        number is Some,
    ensures
        text@.len() >= 1,
        only_digits(text@) || (text@.len() >= 2 && (text@[0] == '+' || text@[0] == '-')
            && only_digits(text@.skip(1))),
{
    let digits = if text@[0] == '+' || text@[0] == '-' {
        text@.skip(1)
    } else {
        text@
    };
    assert forall|i: int| 0 <= i < digits.len() implies '0' <= #[trigger] digits[i] <= '9' by {
        assert(crate::text::is_digit(digits[i]));
    }
}

/// A name is made unique by the least change: none if it is free, else the least number
/// behind it that makes it free.
pub proof fn unique_names_are_the_first_free<T>(base: String, map: TextTable<T>, name: String)
    requires
        call_ensures(make_unique::<T>, (base, &map), name),
    ensures
        !map@.contains_key(name@),
        !map@.contains_key(base@) ==> name@ == base@,
        map@.contains_key(base@) ==> exists|n: nat|
            {
                &&& n >= 1
                &&& name@ == base@ + seq!['_'] + #[trigger] decimal(n)
                &&& value_of(decimal(n)) == n
                &&& forall|m: nat|
                    1 <= m < n ==> map@.contains_key(base@ + seq!['_'] + #[trigger] decimal(m))
            },
{
    if map@.contains_key(base@) {
        let taken = map@.dom();
        let n = choose|n: nat|
            {
                &&& 1 <= n
                &&& name@ == #[trigger] crate::text::numbered(base@, n)
                &&& forall|m: nat|
                    1 <= m < n ==> taken.contains(#[trigger] crate::text::numbered(base@, m))
            };
        decimals_have_their_value(n);
        assert(crate::text::numbered(base@, n) =~= base@ + seq!['_'] + decimal(n));
        assert forall|m: nat| 1 <= m < n implies map@.contains_key(
            base@ + seq!['_'] + #[trigger] decimal(m),
        ) by {
            assert(taken.contains(crate::text::numbered(base@, m)));
            assert(crate::text::numbered(base@, m) =~= base@ + seq!['_'] + decimal(m));
        }
    }
}

/// Texts are the same if and only if all their characters are.
pub proof fn texts_are_compared_whole(a: &str, b: &str, same: bool)
    requires
        call_ensures(same_text, (a, b), same),
    ensures
        same <==> a@.len() == b@.len() && forall|i: int|
            0 <= i < a@.len() ==> #[trigger] a@[i] == b@[i],
{
    if a@.len() == b@.len() && (forall|i: int| 0 <= i < a@.len() ==> #[trigger] a@[i] == b@[i]) {
        assert(a@ =~= b@);
    }
}

/// A text is listed character by character.
pub proof fn texts_are_listed_whole(text: &str, chars: Vec<char>)
    requires
        call_ensures(characters, (text,), chars),
    ensures
        chars@.len() == text@.len(),
        forall|i: int| 0 <= i < text@.len() ==> #[trigger] chars@[i] == text@[i],
{
}

/// What is put under a key is there, and every other key is as it was.
pub proof fn tables_hold_what_is_put<V>(
    table: &mut TextTable<V>,
    key: String,
    value: V,
    k: &str,
    there: Option<&V>,
    other: &str,
    before: Option<&V>,
    after: Option<&V>,
)
    requires
        call_ensures(TextTable::<V>::insert, (table, key, value), ()),
        k@ == key@,
        call_ensures(TextTable::<V>::get, (&*final(table), k), there),
        other@ != key@,
        call_ensures(TextTable::<V>::get, (&*old(table), other), before),
        call_ensures(TextTable::<V>::get, (&*final(table), other), after),
    ensures
        there is Some && *there->0 == value,
        before is Some <==> after is Some,
        before is Some ==> *before->0 == *after->0,
{
}

/// What is taken out is not there, and every other key is as it was.
pub proof fn tables_lose_what_is_taken<V>(
    table: &mut TextTable<V>,
    key: &str,
    there: Option<&V>,
    other: &str,
    before: Option<&V>,
    after: Option<&V>,
)
    requires
        call_ensures(TextTable::<V>::remove, (table, key), ()),
        call_ensures(TextTable::<V>::get, (&*final(table), key), there),
        other@ != key@,
        call_ensures(TextTable::<V>::get, (&*old(table), other), before),
        call_ensures(TextTable::<V>::get, (&*final(table), other), after),
    ensures
        there is None,
        before is Some <==> after is Some,
        before is Some ==> *before->0 == *after->0,
{
}

/// A table has a key if and only if it has a value for it, and a new one has none.
pub proof fn tables_have_the_keys_of_their_values<V>(
    table: TextTable<V>,
    key: &str,
    found: bool,
    value: Option<&V>,
)
    requires
        call_ensures(TextTable::<V>::contains_key, (&table, key), found),
        call_ensures(TextTable::<V>::get, (&table, key), value),
    ensures
        found <==> value is Some,
        call_ensures(TextTable::<V>::new, (), table) ==> value is None,
{
}

/// The entries of a table are its keys with their values, each key once.
pub proof fn entries_are_keys_with_values<V>(
    table: TextTable<V>,
    entries: &Vec<(String, V)>,
    n: usize,
    i: int,
    j: int,
    key: &str,
    value: Option<&V>,
)
    requires
        call_ensures(TextTable::<V>::entries, (&table,), entries),
        call_ensures(TextTable::<V>::len, (&table,), n),
        call_ensures(TextTable::<V>::get, (&table, key), value),
        0 <= i < entries@.len(),
        0 <= j < entries@.len(),
    ensures
        entries@[i].0@ == key@ ==> value is Some && *value->0 == entries@[i].1,
        entries@[i].0@ == entries@[j].0@ ==> i == j,
        value is Some ==> exists|k: int|
            0 <= k < entries@.len() && (#[trigger] entries@[k]).0@ == key@,
{
}

/// A token is what it is made of.
pub proof fn tokens_are_their_bytes(
    bytes: [u8; 32],
    token: UserToken,
    back: [u8; 32],
    other: UserToken,
    same: bool,
)
    requires
        call_ensures(UserToken::new, (bytes,), token),
        call_ensures(UserToken::bytes, (&token,), back),
        call_ensures(UserToken::equals, (&token, &other), same),
    ensures
        back@ == bytes@,
        token@ == bytes@,
        same <==> other@ == bytes@,
{
}

/// A token is read back from the text that it writes, and from no other text.
pub proof fn tokens_have_one_text(
    token: UserToken,
    text: String,
    s: &str,
    read: Result<UserToken, DecodeError>,
)
    requires
        token@.len() == 32,
        call_ensures(UserToken::to_string, (&token,), text),
        call_ensures(UserToken::from_str, (s,), read),
    ensures
        text@.len() == 44,
        s@ == text@ ==> read is Ok && read->Ok_0@ == token@,
        read is Ok && read->Ok_0@ == token@ ==> s@ == text@,
        text@ == base64_text(token@),
{
}

/// A hash is read back from the text that it writes, and from no other text.
pub proof fn hashes_have_one_text(
    hash: XXH3_128Hash,
    text: String,
    s: &str,
    read: Result<XXH3_128Hash, DecodeError>,
)
    requires
        call_ensures(XXH3_128Hash::to_string, (&hash,), text),
        call_ensures(XXH3_128Hash::from_str, (s,), read),
    ensures
        text@.len() == 24,
        s@ == text@ ==> read is Ok && read->Ok_0.0@ == hash.0@,
        read is Ok && read->Ok_0.0@ == hash.0@ ==> s@ == text@,
        text@ == base64_text(hash.0@),
{
}

/// Decoded bytes are taken if there are as many as asked for, byte for byte. Otherwise
/// their number is the error, or the error of the decoding is.
pub proof fn decoded_bytes_are_taken_whole<const N: usize>(
    decoded: Result<Vec<u8>, DecodeError>,
    bytes: Result<[u8; N], DecodeError>,
)
    requires
        call_ensures(exact_bytes::<N>, (decoded,), bytes),
    ensures
        decoded is Err ==> bytes is Err && bytes->Err_0 == decoded->Err_0,
        decoded is Ok ==> (bytes is Ok <==> decoded->Ok_0@.len() == N),
        bytes is Ok ==> bytes->Ok_0@ == decoded->Ok_0@,
        decoded is Ok && bytes is Err && decoded->Ok_0@.len() <= usize::MAX ==> bytes->Err_0
            == DecodeError::InvalidLength(decoded->Ok_0@.len() as usize),
{
}

/// The hash of data is the number that its sixteen bytes make, the first byte being the
/// most significant.
pub proof fn hashes_are_numbers(
    data: &[u8],
    hash: XXH3_128Hash,
    number: u128,
    again: XXH3_128Hash,
)
    requires
        call_ensures(XXH3_128Hash::calculate, (data,), hash),
        call_ensures(XXH3_128Hash::number, (&hash,), number),
        call_ensures(<XXH3_128Hash as From<u128>>::from, (number,), again),
    ensures
        number == xxh3_128_of(data@),
        again.0@ == hash.0@,
{
    hash_is_its_number(again, hash);
}

proof fn a_leading_zero_counts_nothing(bytes: Seq<u8>)
    ensures
        big_endian(seq![0u8] + bytes) == big_endian(bytes),
    decreases bytes.len(),
{
    let longer = seq![0u8] + bytes;
    if bytes.len() == 0 {
        assert(longer.drop_last() =~= Seq::<u8>::empty());
        assert(big_endian(Seq::<u8>::empty()) == 0);
    } else {
        assert(longer.drop_last() =~= seq![0u8] + bytes.drop_last());
        a_leading_zero_counts_nothing(bytes.drop_last());
    }
}

/// The last byte of a hash is what its number leaves over 256, and the bytes before it
/// make the number of how often 256 goes into it. Different hashes are different numbers.
pub proof fn hash_bytes_count_big_endian(
    a: XXH3_128Hash,
    b: XXH3_128Hash,
    shifted: XXH3_128Hash,
    na: u128,
    nb: u128,
    ns: u128,
)
    requires
        call_ensures(XXH3_128Hash::number, (&a,), na),
        call_ensures(XXH3_128Hash::number, (&b,), nb),
        call_ensures(XXH3_128Hash::number, (&shifted,), ns),
        shifted.0@ == seq![0u8] + a.0@.take(15),
    ensures
        na % 256 == a.0@[15],
        na / 256 == ns,
        na == nb <==> a.0@ == b.0@,
{
    if na == nb {
        hash_is_its_number(a, b);
    }
    hash_fits_its_number(a);
    hash_fits_its_number(shifted);
    a_leading_zero_counts_nothing(a.0@.take(15));
    assert(a.0@.drop_last() =~= a.0@.take(15));
}

/// An instant is the nanoseconds that it is made of, if they are in range.
pub proof fn instants_are_their_nanoseconds(
    nanos: i128,
    t: Option<UtcTime>,
    back: i128,
    second: i64,
    at: Result<UtcTime, DateOverflow>,
)
    requires
        call_ensures(UtcTime::from_nanos, (nanos,), t),
        t is Some ==> call_ensures(UtcTime::nanos, (&t->0,), back),
        call_ensures(UtcTime::from_second, (second,), at),
    ensures
        t is Some <==> -377_705_023_201_000_000_000 <= nanos <= 253_402_207_200_999_999_999,
        t is Some ==> t->0@ == nanos && back == nanos,
        at is Ok <==> -377_705_023_201 <= second <= 253_402_207_200,
        at is Ok ==> at->Ok_0@ == second * 1_000_000_000,
{
}

/// The last instant is in the last hour of the range, the present one is in the range.
pub proof fn instants_are_in_range(last: UtcTime, now: UtcTime)
    requires
        call_ensures(UtcTime::max, (), last),
        call_ensures(UtcTime::now, (), now),
    ensures
        last@ == 253_402_207_200_999_999_999,
        -377_705_023_201_000_000_000 <= now@ <= last@,
{
}

/// Instants are ordered by their nanoseconds.
pub proof fn instants_are_ordered(a: UtcTime, b: UtcTime, before: bool, after: bool)
    requires
        call_ensures(UtcTime::is_before, (&a, &b), before),
        call_ensures(UtcTime::is_before, (&b, &a), after),
    ensures
        before <==> a@ < b@,
        after <==> b@ < a@,
        !(before && after),
{
}

/// Adding nanoseconds adds them, if the sum is in range.
pub proof fn nanoseconds_add_up(t: UtcTime, nanos: i128, sum: Result<UtcTime, DateOverflow>)
    requires
        call_ensures(UtcTime::checked_add_nanos, (&t, nanos), sum),
    ensures
        sum is Ok <==> -377_705_023_201_000_000_000 <= t@ + nanos <= 253_402_207_200_999_999_999,
        sum is Ok ==> sum->Ok_0@ == t@ + nanos,
{
}

/// A span lasts from an instant to the sum, and a span of clock units lasts as long as its
/// units.
pub proof fn spans_add_up(
    t: UtcTime,
    span: Span,
    sum: Result<UtcTime, DateOverflow>,
    length: Result<i128, DateOverflow>,
)
    requires
        call_ensures(UtcTime::checked_add, (&t, &span), sum),
        call_ensures(Span::to_nanos, (&span, &t), length),
    ensures
        sum is Ok <==> zoned_plus_span(t@, span@) is Some,
        sum is Ok ==> sum->Ok_0@ == zoned_plus_span(t@, span@)->0,
        sum is Ok ==> length is Ok && sum->Ok_0@ == t@ + length->Ok_0,
        span@.years == 0 && span@.months == 0 && span@.weeks == 0 && span@.days == 0 ==> {
            let u = span@;
            &&& length is Ok
            &&& length->Ok_0 == u.hours * 3_600_000_000_000 + u.minutes * 60_000_000_000 + u.seconds
                * 1_000_000_000 + u.milliseconds * 1_000_000 + u.microseconds * 1_000
                + u.nanoseconds
            &&& sum is Ok <==> -377_705_023_201_000_000_000 <= t@ + length->Ok_0
                <= 253_402_207_200_999_999_999
        },
{
}

/// A span has the units that it is made of. One of hours has hours alone.
pub proof fn spans_are_their_units(
    units: SpanUnits,
    span: Option<Span>,
    back: SpanUnits,
    hours: i64,
    of_hours: Span,
)
    requires
        call_ensures(Span::from_units, (units,), span),
        span is Some ==> call_ensures(Span::units, (&span->0,), back),
        call_ensures(Span::hours, (hours,), of_hours),
    ensures
        span is Some <==> {
            let u = units;
            &&& -19_998 <= u.years <= 19_998
            &&& -239_976 <= u.months <= 239_976
            &&& -1_043_497 <= u.weeks <= 1_043_497
            &&& -7_304_484 <= u.days <= 7_304_484
            &&& -175_307_616 <= u.hours <= 175_307_616
            &&& -10_518_456_960 <= u.minutes <= 10_518_456_960
            &&& -631_107_417_600 <= u.seconds <= 631_107_417_600
            &&& -631_107_417_600_000 <= u.milliseconds <= 631_107_417_600_000
            &&& -631_107_417_600_000_000 <= u.microseconds <= 631_107_417_600_000_000
            &&& u.nanoseconds > i64::MIN
            &&& {
                ||| u.years >= 0 && u.months >= 0 && u.weeks >= 0 && u.days >= 0 && u.hours >= 0
                    && u.minutes >= 0 && u.seconds >= 0 && u.milliseconds >= 0 && u.microseconds
                    >= 0 && u.nanoseconds >= 0
                ||| u.years <= 0 && u.months <= 0 && u.weeks <= 0 && u.days <= 0 && u.hours <= 0
                    && u.minutes <= 0 && u.seconds <= 0 && u.milliseconds <= 0 && u.microseconds
                    <= 0 && u.nanoseconds <= 0
            }
        },
        span is Some ==> back == units && span->0@ == units,
        of_hours@ == (SpanUnits {
            years: 0,
            months: 0,
            weeks: 0,
            days: 0,
            hours,
            minutes: 0,
            seconds: 0,
            milliseconds: 0,
            microseconds: 0,
            nanoseconds: 0,
        }),
{
}

/// Dates are written in the form of headers.
pub proof fn dates_are_written_for_headers(t: UtcTime, text: String)
    requires
        call_ensures(UtcTime::http_date, (&t,), text),
    ensures
        text@ == formatted_time(t@, "%a, %d %b %Y %H:%M:%S GMT"@),
{
}

/// A pair of texts is a certificate with its key, and an error is one.
pub proof fn pairs_are_certificates(
    pair: Result<(String, String), rcgen::Error>,
    certificate: Result<AdhocCertificate, CertificateError>,
)
    requires
        call_ensures(adhoc_certificate, (pair,), certificate),
    ensures
        certificate is Ok <==> pair is Ok,
        pair is Ok ==> {
            &&& certificate->Ok_0.cert@ == pair->Ok_0.0@
            &&& certificate->Ok_0.key@ == pair->Ok_0.1@
        },
{
}

/// The address of a secret file is the text of its token, unless that is taken.
pub proof fn secret_addresses_are_token_texts(
    fs: LocalTokenizedFilesystem,
    token: UserToken,
    uri: Option<String>,
)
    requires
        call_ensures(LocalTokenizedFilesystem::secret_uri, (&fs, &token), uri),
    ensures
        uri is Some <==> !fs.database@.url_file_map.contains_key(base64_text(token@)),
        uri is Some ==> uri->0@ == base64_text(token@),
{
}

} // verus!
