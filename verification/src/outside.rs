//! The calls into other crates, each behind one function whose contract says what
//! the rest of the library relies on.

use crate::encoding::{base64_text, is_base64};
use crate::settings::texts;
use crate::time::{clock_nanos, has_calendar_units, http_date_format, in_time_range};
use crate::time::{is_duration, is_span, SpanUnits};
use base64::prelude::BASE64_URL_SAFE;
use base64::Engine;
use rand::rngs::StdRng;
use rand::{RngCore, SeedableRng};
use std::str::FromStr;
use vstd::prelude::*;
use vstd::utf8::{encode_utf8, is_ascii_chars};

verus! {

/// Why a text is no base64, or not the base64 of as many bytes as were asked for.
#[derive(Debug, Clone, Copy, PartialEq, Eq, Structural)]
pub enum DecodeError {
    /// A byte at an offset is not in the alphabet, or is misplaced padding.
    InvalidByte(usize, u8),
    /// The number of symbols, or of decoded bytes, is wrong.
    InvalidLength(usize),
    /// The last symbol at an offset has bits set that decoding would drop.
    InvalidLastSymbol(usize, u8),
    /// The padding is missing or wrong.
    InvalidPadding,
}

/// What `base64::Engine::decode` with `BASE64_URL_SAFE` gives for `text`.
pub uninterp spec fn base64_bytes(text: Seq<char>) -> Result<Seq<u8>, DecodeError>;

/// Calls `base64::Engine::encode` with the engine `BASE64_URL_SAFE`: base64 with the
/// URL-safe alphabet and padding. The result decodes back to the bytes.
#[verifier::external_body]
pub(crate) fn base64_encode(bytes: &[u8]) -> (text: String)
    requires
        bytes@.len() <= 64,
    ensures
        text@ == base64_text(bytes@),
        base64_bytes(text@) is Ok,
        base64_bytes(text@)->Ok_0 == bytes@,
{
    BASE64_URL_SAFE.encode(bytes)
}

/// Calls `base64::Engine::decode` with the engine `BASE64_URL_SAFE`. The result
/// depends on the text alone. The engine takes the texts that it writes, and gives the
/// bytes that they were written for. It takes no other: padding must be there, and no
/// bits may be left over. Which error comes of which other text is left to that crate.
#[verifier::external_body]
pub(crate) fn base64_decode(text: &str) -> (bytes: Result<Vec<u8>, DecodeError>)
    ensures
        match bytes {
            Ok(b) => base64_bytes(text@) == Ok::<Seq<u8>, DecodeError>(b@),
            Err(e) => base64_bytes(text@) == Err::<Seq<u8>, DecodeError>(e),
        },
        bytes is Ok ==> text@ == base64_text(bytes->Ok_0@),
        bytes is Err ==> !is_base64(text@),
{
    match BASE64_URL_SAFE.decode(text) {
        Ok(bytes) => Ok(bytes),
        Err(base64::DecodeError::InvalidByte(at, byte)) => Err(DecodeError::InvalidByte(at, byte)),
        Err(base64::DecodeError::InvalidLength(len)) => Err(DecodeError::InvalidLength(len)),
        Err(base64::DecodeError::InvalidLastSymbol(at, byte)) => {
            Err(DecodeError::InvalidLastSymbol(at, byte))
        },
        Err(base64::DecodeError::InvalidPadding) => Err(DecodeError::InvalidPadding),
    }
}

/// Calls `rand::RngCore::fill_bytes` on a `StdRng` seeded by the operating
/// system. Nothing is known of the bytes.
#[verifier::external_body]
pub(crate) fn random_bytes() -> (bytes: [u8; 32]) {
    let mut bytes = [0u8; 32];
    StdRng::from_os_rng().fill_bytes(&mut bytes);
    bytes
}

/// What `xxhash_rust::xxh3::xxh3_128` gives for `data`.
pub uninterp spec fn xxh3_128_of(data: Seq<u8>) -> u128;

/// Calls `xxhash_rust::xxh3::xxh3_128`, a fixed function of the data.
#[verifier::external_body]
pub(crate) fn xxh3_128(data: &[u8]) -> (hash: u128)
    ensures
        hash == xxh3_128_of(data@),
{
    xxhash_rust::xxh3::xxh3_128(data)
}

/// The error type of `jiff`, of which nothing is looked at.
#[verifier::external_type_specification]
#[verifier::external_body]
pub struct ExJiffError(jiff::Error);

/// Calls `jiff::Timestamp::now`. The instant is one that the type can hold.
#[verifier::external_body]
pub(crate) fn now_nanos() -> (nanos: i128)
    ensures
        in_time_range(nanos as int),
{
    jiff::Timestamp::now().as_nanosecond()
}

/// Calls `jiff::Timestamp::from_second`, which succeeds for the seconds that the
/// type can hold.
#[verifier::external_body]
pub(crate) fn seconds_to_nanos(second: i64) -> (nanos: Result<i128, jiff::Error>)
    ensures
        nanos is Ok <==> in_time_range(second * 1_000_000_000),
        nanos is Ok ==> nanos->Ok_0 == second * 1_000_000_000,
{
    Ok(jiff::Timestamp::from_second(second)?.as_nanosecond())
}

/// What `jiff::Zoned::checked_add` gives for a date in UTC and a span: the
/// nanoseconds after 1970, or nothing where it reports an error.
pub uninterp spec fn zoned_plus_span(start: int, span: SpanUnits) -> Option<int>;

/// Calls `jiff::Zoned::checked_add` on a date in UTC. The result depends on the
/// date and the span alone. Without calendar units the span is simply added, and
/// the only error is a sum that is out of range.
#[verifier::external_body]
pub(crate) fn zoned_checked_add(start: i128, span: SpanUnits) -> (end: Result<i128, jiff::Error>)
    requires
        in_time_range(start as int),
        is_span(span),
    ensures
        match end {
            Ok(t) => zoned_plus_span(start as int, span) == Some(t as int),
            Err(_) => zoned_plus_span(start as int, span) is None,
        },
        end is Ok ==> in_time_range(end->Ok_0 as int),
        !has_calendar_units(span) ==> (end is Ok <==> in_time_range(start + clock_nanos(span))),
        !has_calendar_units(span) && end is Ok ==> end->Ok_0 == start + clock_nanos(span),
{
    let span = jiff::Span::new().years(span.years).months(span.months).weeks(span.weeks)
        .days(span.days).hours(span.hours).minutes(span.minutes).seconds(span.seconds)
        .milliseconds(span.milliseconds).microseconds(span.microseconds)
        .nanoseconds(span.nanoseconds);
    let start = jiff::Timestamp::from_nanosecond(start)?.to_zoned(jiff::tz::TimeZone::UTC);
    Ok(start.checked_add(span)?.timestamp().as_nanosecond())
}

/// What `jiff::Span::to_duration` gives for a span relative to a date in UTC: the
/// nanoseconds, or nothing where it reports an error.
pub uninterp spec fn span_length(span: SpanUnits, start: int) -> Option<int>;

/// Calls `jiff::Span::to_duration` relative to a date in UTC. The result depends on
/// the span and the date alone, and is a number of nanoseconds that a
/// `SignedDuration` holds. It is the time from the date to the one that `checked_add`
/// gives. With calendar units it is an error where that is one. Without calendar units
/// it is the sum of the units, and there is no error.
#[verifier::external_body]
pub(crate) fn span_to_duration(span: SpanUnits, start: i128) -> (nanos: Result<i128, jiff::Error>)
    requires
        is_span(span),
        in_time_range(start as int),
    ensures
        match nanos {
            Ok(n) => span_length(span, start as int) == Some(n as int),
            Err(_) => span_length(span, start as int) is None,
        },
        nanos is Ok ==> is_duration(nanos->Ok_0 as int),
        match zoned_plus_span(start as int, span) {
            Some(end) => nanos is Ok && nanos->Ok_0 == end - start,
            None => has_calendar_units(span) ==> nanos is Err,
        },
        !has_calendar_units(span) ==> nanos is Ok,
        !has_calendar_units(span) ==> nanos->Ok_0 == clock_nanos(span),
{
    let span = jiff::Span::new().years(span.years).months(span.months).weeks(span.weeks)
        .days(span.days).hours(span.hours).minutes(span.minutes).seconds(span.seconds)
        .milliseconds(span.milliseconds).microseconds(span.microseconds)
        .nanoseconds(span.nanoseconds);
    let start = jiff::Timestamp::from_nanosecond(start)?.to_zoned(jiff::tz::TimeZone::UTC);
    Ok(span.to_duration(&start)?.as_nanos())
}

/// What `jiff::Zoned::strftime` gives for a date in UTC and a format.
pub uninterp spec fn formatted_time(nanos: int, format: Seq<char>) -> Seq<char>;

/// Calls `jiff::Zoned::strftime` on a date in UTC. The text depends on the date and
/// the format alone.
#[verifier::external_body]
pub(crate) fn zoned_strftime(nanos: i128, format: &str) -> (text: String)
    requires
        in_time_range(nanos as int),
        format@ == http_date_format(),
    ensures
        text@ == formatted_time(nanos as int, format@),
{
    let date = jiff::Timestamp::from_nanosecond(nanos).unwrap().to_zoned(jiff::tz::TimeZone::UTC);
    date.strftime(format).to_string()
}

/// Whether `c` may stand in a file name on Windows.
pub open spec fn is_windows_safe_char(c: char) -> bool {
    &&& c >= ' ' && c != '\u{7f}'
    &&& c != '<' && c != '>' && c != ':' && c != '"' && c != '/' && c != '\\' && c != '|'
    &&& c != '?' && c != '*'
}

/// Whether all characters of `name` may stand in a file name on Windows.
pub open spec fn is_windows_safe(name: Seq<char>) -> bool {
    forall|i: int| 0 <= i < name.len() ==> is_windows_safe_char(#[trigger] name[i])
}

/// Whether `name` holds no control character.
pub open spec fn has_no_control(name: Seq<char>) -> bool {
    forall|i: int|
        0 <= i < name.len() ==> !(#[trigger] name[i] < ' ' || '\u{7f}' <= name[i] <= '\u{9f}')
}

/// Whether `name` is made of full stops alone.
pub open spec fn only_full_stops(name: Seq<char>) -> bool {
    forall|i: int| 0 <= i < name.len() ==> #[trigger] name[i] == '.'
}

/// The character `c`, in lower case if it is an ASCII letter.
pub open spec fn lower(c: char) -> char {
    if 'A' <= c <= 'Z' {
        (c as int + 32) as char
    } else {
        c
    }
}

/// Whether Windows takes `name` for a device.
pub open spec fn is_device_name(name: Seq<char>) -> bool {
    let l = name.map_values(|c: char| lower(c));
    ||| l == seq!['c', 'o', 'n'] || l == seq!['p', 'r', 'n']
    ||| l == seq!['a', 'u', 'x'] || l == seq!['n', 'u', 'l']
    ||| l.len() == 4 && '1' <= l[3] <= '9' && (l.take(3) == seq!['c', 'o', 'm'] || l.take(3)
        == seq!['l', 'p', 't'])
}

/// What `sanitise_file_name::sanitize_with_options` gives for `name`, with
/// `windows_safe` as told and the default for the other options.
pub uninterp spec fn sanitised(name: Seq<char>, windows_safe: bool) -> Seq<char>;

/// Calls `sanitise_file_name::sanitize_with_options`. The result depends on the
/// arguments alone. It is not empty and not made of full stops alone, takes at most 255
/// bytes and holds no control character. With `windows_safe` it also holds no character
/// that Windows forbids in file names, and is not the name of a device.
#[verifier::external_body]
pub(crate) fn sanitise_name(name: &str, windows_safe: bool) -> (safe: String)
    ensures
        safe@ == sanitised(name@, windows_safe),
        safe@.len() > 0,
        encode_utf8(safe@).len() <= 255,
        has_no_control(safe@),
        !only_full_stops(safe@),
        windows_safe ==> is_windows_safe(safe@),
        windows_safe ==> !is_device_name(safe@),
{
    sanitise_file_name::sanitize_with_options(
        name,
        &sanitise_file_name::Options { windows_safe, ..sanitise_file_name::Options::DEFAULT },
    )
}

/// Whether `found` is a media type that `tree_magic_mini::from_u8` may give for `data`.
pub uninterp spec fn detectable(data: Seq<u8>, found: Seq<char>) -> bool;

/// Calls `tree_magic_mini::from_u8`. It goes by the media type database of the machine,
/// so all that is said of the result is that it is one for this data. It is unsaid
/// which one.
#[verifier::external_body]
pub(crate) fn detect_media_type(data: &[u8]) -> (found: String)
    ensures
        detectable(data@, found@),
{
    tree_magic_mini::from_u8(data).to_string()
}

/// What `mime::Mime::from_str` gives for `text`: the text of the media type, or
/// nothing where it reports an error.
pub uninterp spec fn media_type(text: Seq<char>) -> Option<Seq<char>>;

/// Calls `mime::Mime::from_str` and writes the media type as text. The result
/// depends on the text alone.
#[verifier::external_body]
pub(crate) fn parse_media_type(text: &str) -> (mime: Option<String>)
    ensures
        match mime {
            Some(m) => media_type(text@) == Some(m@),
            None => media_type(text@) is None,
        },
{
    match mime::Mime::from_str(text) {
        Ok(mime) => Some(mime.to_string()),
        Err(_) => None,
    }
}

/// Whether form encoding leaves the byte as it is.
pub open spec fn is_form_char(b: u8) -> bool {
    ||| 0x30 <= b <= 0x39
    ||| 0x41 <= b <= 0x5a
    ||| 0x61 <= b <= 0x7a
    ||| b == 0x2a || b == 0x2d || b == 0x2e || b == 0x5f
}

/// The upper-case hexadecimal digit of `n`.
pub open spec fn hex_digit(n: int) -> char {
    if n < 10 {
        ('0' as int + n) as char
    } else {
        ('A' as int + n - 10) as char
    }
}

/// How form encoding writes one byte.
pub open spec fn form_byte(b: u8) -> Seq<char> {
    if is_form_char(b) {
        seq![b as char]
    } else if b == 0x20 {
        seq!['+']
    } else {
        seq!['%', hex_digit(b as int / 16), hex_digit(b as int % 16)]
    }
}

/// How form encoding writes bytes: one after the other.
pub open spec fn form_encoded(bytes: Seq<u8>) -> Seq<char>
    decreases bytes.len(),
{
    if bytes.len() == 0 {
        Seq::empty()
    } else {
        form_encoded(bytes.drop_last()) + form_byte(bytes.last())
    }
}

/// Calls `form_urlencoded::byte_serialize` and joins the pieces. Letters, digits
/// and `*-._` stay, a space becomes `+`, and every other byte becomes a percent sign
/// with two upper-case hexadecimal digits.
#[verifier::external_body]
pub(crate) fn form_encode(bytes: &[u8]) -> (text: String)
    ensures
        text@ == form_encoded(bytes@),
{
    form_urlencoded::byte_serialize(bytes).collect()
}

/// The error type of `rcgen`, of which nothing is looked at.
#[verifier::external_type_specification]
#[verifier::external_body]
pub struct ExRcgenError(rcgen::Error);

/// Whether this certificate and this key, as text, are a pair that
/// `rcgen::generate_simple_self_signed` may make for `domains`.
pub uninterp spec fn self_signed_for(
    domains: Seq<Seq<char>>,
    cert: Seq<char>,
    key: Seq<char>,
) -> bool;

/// Whether all of `domains` consist of ASCII characters alone.
pub open spec fn all_ascii(domains: Seq<Seq<char>>) -> bool {
    forall|i: int| 0 <= i < domains.len() ==> is_ascii_chars(#[trigger] domains[i])
}

/// Calls `rcgen::generate_simple_self_signed` and writes the certificate and its key
/// as text. The key is drawn at random, so of a pair all that is said is that it is one
/// made for these domains. A domain that is no IP address and has a character outside
/// of ASCII is an error; the text of an IP address is ASCII. Where all are ASCII, it is
/// unsaid whether there is a pair: that rests on the system's source of randomness.
#[verifier::external_body]
pub(crate) fn self_signed(domains: Vec<String>) -> (pair: Result<(String, String), rcgen::Error>)
    ensures
        pair is Ok ==> self_signed_for(texts(domains@), pair->Ok_0.0@, pair->Ok_0.1@),
        pair is Ok ==> all_ascii(texts(domains@)),
{
    let rcgen::CertifiedKey { cert, signing_key } = rcgen::generate_simple_self_signed(domains)?;
    Ok((cert.pem(), signing_key.serialize_pem()))
}

} // verus!
