//! What is made of the fields of an upload, and when files expire, call by call.

use crate::address::SocketAddress;
use crate::expire::{decayed, parse_expire_strategy, CubicDecay, ExpireStrategy};
use crate::form::{modify_field, refuse_builder, FieldStep, Modification};
use crate::outside::{detectable, media_type, sanitised, xxh3_128_of, zoned_plus_span};
use crate::post::{sanitize_file_name, BuilderError, PostData, PostDataBuilder, ServerStrategy};
use crate::reply::Rejection;
use crate::settings::Settings;
use crate::text::parse_integer;
use crate::time::{DateOverflow, Span, SpanUnits, UtcTime, MAX_NANOS, MIN_NANOS};
use crate::token::UserToken;
use vstd::prelude::*;

verus! {

/// Whether the same has been said of both uploads, but for the name, the size and the
/// data of the file, its media type, the two flags and the wish, as far as these are told
/// to differ.
pub open spec fn same_but(
    a: PostDataBuilder,
    b: PostDataBuilder,
    file: bool,
    media: bool,
    content: bool,
    secret: bool,
    nsfw: bool,
    wish: bool,
) -> bool {
    &&& !file ==> (a.file_name is Some <==> b.file_name is Some) && (a.file_name is Some
        ==> a.file_name->0@ == b.file_name->0@)
    &&& !media ==> (a.content_encoding is Some <==> b.content_encoding is Some) && (
    a.content_encoding is Some ==> a.content_encoding->0@ == b.content_encoding->0@)
    &&& !content ==> a.file_size == b.file_size
    &&& !content ==> (a.file_data is Some <==> b.file_data is Some) && (a.file_data is Some
        ==> a.file_data->0@ == b.file_data->0@)
    &&& !secret ==> a.secret == b.secret
    &&& !nsfw ==> a.nsfw == b.nsfw
    &&& !wish ==> (a.expire_strategy is Some <==> b.expire_strategy is Some) && (
    a.expire_strategy is Some ==> a.expire_strategy->0@ == b.expire_strategy->0@)
    &&& a.uploader_ip == b.uploader_ip
    &&& a.uploader_ua@ == b.uploader_ua@
}

/// Whether a request is refused with this status and message.
pub open spec fn is_refusal(r: Rejection, status: u16, message: Seq<char>) -> bool {
    r.status == status && r.message@ == message
}

/// An upload begins with nothing but who makes it.
pub proof fn uploads_begin_empty(ip: SocketAddress, ua: String, b: PostDataBuilder)
    requires
        call_ensures(PostData::builder, (ip, ua), b) || call_ensures(
            PostDataBuilder::new,
            (ip, ua),
            b,
        ),
    ensures
        b.uploader_ip == ip,
        b.uploader_ua@ == ua@,
        b.secret is None && b.file_name is None && b.file_size is None && b.file_data is None,
        b.content_encoding is None && b.nsfw is None && b.expire_strategy is None,
{
}

/// A field without a name is refused, and nothing of it is noted.
pub proof fn nameless_fields_are_refused(
    b: &mut PostDataBuilder,
    file_name: Option<&str>,
    content_type: Option<&str>,
    step: Result<FieldStep, Rejection>,
)
    requires
        call_ensures(PostDataBuilder::take_field, (b, None, file_name, content_type), step),
    ensures
        step is Err,
        is_refusal(step->Err_0, 400, "A field w/o a name. wtf."@),
        same_but(*old(b), *final(b), false, false, false, false, false, false),
{
}

/// A `file` field is to be read as bytes. Its file name is noted, and its media type if it
/// names one. Without a file name it is refused.
pub proof fn file_fields_are_read_as_bytes(
    b: &mut PostDataBuilder,
    name: &str,
    file_name: Option<&str>,
    content_type: Option<&str>,
    step: Result<FieldStep, Rejection>,
)
    requires
        call_ensures(PostDataBuilder::take_field, (b, Some(name), file_name, content_type), step),
        name@ == "file"@,
    ensures
        step is Ok <==> file_name is Some,
        step is Ok ==> {
            &&& step->Ok_0 == FieldStep::ReadBytes
            &&& final(b).file_name is Some
            &&& final(b).file_name->0@ == file_name->0@
            &&& same_but(*old(b), *final(b), true, content_type is Some, false, false, false, false)
            &&& content_type is Some ==> (final(b).content_encoding is Some <==> media_type(
                content_type->0@,
            ) is Some)
            &&& content_type is Some && media_type(content_type->0@) is Some ==> final(b).content_encoding->0@ == media_type(content_type->0@)->0
        },
        step is Err ==> {
            &&& is_refusal(step->Err_0, 400, "A file w/o a file name. wtf."@)
            &&& same_but(*old(b), *final(b), false, false, false, false, false, false)
        },
{
}

/// Fields that are not `file` never fail. `secret` and `nsfw` set their flag, `expire` is
/// to be read as text, and any other field is passed over.
pub proof fn other_fields_set_flags(
    b: &mut PostDataBuilder,
    name: &str,
    file_name: Option<&str>,
    content_type: Option<&str>,
    step: Result<FieldStep, Rejection>,
)
    requires
        call_ensures(PostDataBuilder::take_field, (b, Some(name), file_name, content_type), step),
        name@ != "file"@,
    ensures
        step is Ok,
        step->Ok_0 == FieldStep::ReadText <==> name@ == "expire"@,
        step->Ok_0 == FieldStep::Done <==> name@ != "expire"@,
        name@ == "secret"@ ==> final(b).secret == Some(true),
        name@ == "nsfw"@ ==> final(b).nsfw == Some(true),
        same_but(
            *old(b),
            *final(b),
            false,
            false,
            false,
            name@ == "secret"@,
            name@ == "nsfw"@,
            false,
        ),
{
    reveal_strlit("secret");
    reveal_strlit("nsfw");
    reveal_strlit("expire");
    reveal_strlit("file");
    assert("secret"@.len() == 6 && "nsfw"@.len() == 4 && "expire"@.len() == 6);
    assert("secret"@[0] != "expire"@[0]);
}

/// The content of a `file` field is noted byte for byte, with its length as the size. If
/// it could not be read, the upload is refused.
pub proof fn content_is_noted_whole(
    b: &mut PostDataBuilder,
    data: Option<Vec<u8>>,
    taken: Result<(), Rejection>,
)
    requires
        call_ensures(PostDataBuilder::take_bytes, (b, data), taken),
    ensures
        taken is Ok <==> data is Some,
        data is Some ==> {
            &&& final(b).file_data is Some
            &&& final(b).file_data->0@ == data->0@
            &&& final(b).file_size is Some
            &&& data->0@.len() <= usize::MAX ==> final(b).file_size->0 == data->0@.len()
            &&& same_but(*old(b), *final(b), false, false, true, false, false, false)
        },
        data is None ==> {
            &&& is_refusal(taken->Err_0, 400, "Error extracting data."@)
            &&& same_but(*old(b), *final(b), false, false, false, false, false, false)
        },
{
}

/// The content of an `expire` field becomes the wish that its number stands for. If it
/// could not be read, or stands for none, the upload is refused as the reading was.
pub proof fn wishes_are_noted(
    b: &mut PostDataBuilder,
    text: Result<String, Rejection>,
    taken: Result<(), Rejection>,
    parsed: Result<ExpireStrategy, Rejection>,
)
    requires
        call_ensures(PostDataBuilder::take_text, (b, text), taken),
        text is Ok ==> call_ensures(parse_expire_strategy, (text->Ok_0,), parsed),
    ensures
        taken is Ok <==> text is Ok && parsed is Ok,
        taken is Ok ==> {
            &&& final(b).expire_strategy is Some
            &&& final(b).expire_strategy->0@ == parsed->Ok_0@
            &&& same_but(*old(b), *final(b), false, false, false, false, false, true)
        },
        taken is Err ==> same_but(*old(b), *final(b), false, false, false, false, false, false),
        text is Err ==> is_refusal(taken->Err_0, text->Err_0.status, text->Err_0.message@),
        text is Ok && parsed is Err ==> is_refusal(
            taken->Err_0,
            parsed->Err_0.status,
            parsed->Err_0.message@,
        ),
{
}

/// A wish is a number. Up to the most hours that a span holds it is one of hours from the
/// creation, from there on one of seconds from 1970, cut off at the last date. Negative
/// numbers, and what is no number, are refused.
pub proof fn wishes_are_hours_or_dates(
    text: String,
    strategy: Result<ExpireStrategy, Rejection>,
    slice: &str,
    number: Option<i64>,
)
    requires
        call_ensures(parse_expire_strategy, (text,), strategy),
        slice@ == text@,
        call_ensures(parse_integer, (slice,), number),
    ensures
        number is None ==> strategy is Err && is_refusal(
            strategy->Err_0,
            400,
            "Can't parse `expires` field as a u64"@,
        ),
        number is Some && number->0 < 0 ==> strategy is Err && is_refusal(
            strategy->Err_0,
            400,
            "Invalid `expires` value."@,
        ),
        number is Some && 0 <= number->0 < 175_307_616 ==> {
            &&& strategy is Ok && strategy->Ok_0 is Offset
            &&& strategy->Ok_0->Offset_0@ == (SpanUnits {
                years: 0,
                months: 0,
                weeks: 0,
                days: 0,
                hours: number->0,
                minutes: 0,
                seconds: 0,
                milliseconds: 0,
                microseconds: 0,
                nanoseconds: 0,
            })
        },
        number is Some && number->0 >= 175_307_616 ==> {
            &&& strategy is Ok && strategy->Ok_0 is Exact
            &&& strategy->Ok_0->Exact_0@ == (if number->0 * 1_000_000_000
                <= 253_402_207_200_999_999_999 {
                number->0 * 1_000_000_000
            } else {
                253_402_207_200_999_999_999
            })
        },
{
}

/// The end of a lifespan is the end of the shortest age plus what `scale` returned for the
/// shortest age less the longest, the two sizes and the power. It is an error where an age
/// or the sum has no date, and only there.
pub proof fn lifespans_are_sums<S: Fn(i128, usize, usize, i32) -> i128>(
    decay: CubicDecay,
    start: UtcTime,
    file_size: usize,
    max_size: usize,
    scale: S,
    date: Result<UtcTime, DateOverflow>,
    earliest: Result<UtcTime, DateOverflow>,
    shortest: Result<i128, DateOverflow>,
    longest: Result<i128, DateOverflow>,
)
    requires
        call_ensures(
            CubicDecay::calculate_lifespan::<S>,
            (&decay, &start, file_size, max_size, &scale),
            date,
        ),
        call_ensures(UtcTime::checked_add, (&start, &decay.min_age), earliest),
        call_ensures(Span::to_nanos, (&decay.min_age, &start), shortest),
        call_ensures(Span::to_nanos, (&decay.max_age, &start), longest),
    ensures
        earliest is Err || longest is Err ==> date is Err,
        earliest is Ok && longest is Ok ==> {
            &&& shortest is Ok
            &&& exists|scaled: i128|
                {
                    let end = earliest->Ok_0@ + scaled;
                    &&& #[trigger] call_ensures(
                        scale,
                        ((shortest->Ok_0 - longest->Ok_0) as i128, file_size, max_size, decay.power),
                        scaled,
                    )
                    &&& date is Ok <==> MIN_NANOS <= end <= MAX_NANOS
                    &&& date is Ok ==> date->Ok_0@ == end
                }
        },
{
}

/// Where `scale` returns something strictly between nothing and the whole difference of
/// the ages, a file expires strictly between their ends. Where it returns more for one
/// file than for another, the one expires later.
pub proof fn lifespans_follow_the_scale<S: Fn(i128, usize, usize, i32) -> i128>(
    decay: CubicDecay,
    start: UtcTime,
    size: usize,
    other_size: usize,
    max_size: usize,
    scale: S,
    date: UtcTime,
    other_date: UtcTime,
    earliest: UtcTime,
    latest: UtcTime,
    scaled: i128,
    other_scaled: i128,
)
    requires
        call_ensures(
            CubicDecay::calculate_lifespan::<S>,
            (&decay, &start, size, max_size, &scale),
            Ok(date),
        ),
        call_ensures(
            CubicDecay::calculate_lifespan::<S>,
            (&decay, &start, other_size, max_size, &scale),
            Ok(other_date),
        ),
        call_ensures(UtcTime::checked_add, (&start, &decay.min_age), Ok(earliest)),
        call_ensures(UtcTime::checked_add, (&start, &decay.max_age), Ok(latest)),
        ({
            let difference = (earliest@ - latest@) as i128;
            &&& forall|x: i128| #[trigger]
                call_ensures(scale, (difference, size, max_size, decay.power), x) ==> x == scaled
            &&& forall|x: i128| #[trigger]
                call_ensures(scale, (difference, other_size, max_size, decay.power), x) ==> x
                    == other_scaled
        }),
    ensures
        date@ == earliest@ + scaled,
        date@ - other_date@ == scaled - other_scaled,
        0 < scaled < latest@ - earliest@ ==> earliest@ < date@ < latest@,
{
}

/// A file without end expires on the last date, one with a date on that date, one with a
/// span a span after its creation, and one under a decay as that decay says.
pub proof fn strategies_mean_what_they_say<S: Fn(i128, usize, usize, i32) -> i128>(
    strategy: ExpireStrategy,
    start: UtcTime,
    file_size: usize,
    max_size: usize,
    scale: S,
    date: Result<UtcTime, DateOverflow>,
    sum: Result<UtcTime, DateOverflow>,
)
    requires
        call_ensures(
            ExpireStrategy::calculate_lifespan::<S>,
            (&strategy, &start, file_size, max_size, &scale),
            date,
        ),
        strategy is Offset ==> call_ensures(
            UtcTime::checked_add,
            (&start, &strategy->Offset_0),
            sum,
        ),
    ensures
        strategy is Never ==> date is Ok && date->Ok_0@ == 253_402_207_200_999_999_999,
        strategy is Exact ==> date is Ok && date->Ok_0@ == strategy->Exact_0@,
        strategy is Offset ==> {
            &&& date is Ok <==> sum is Ok
            &&& date is Ok ==> date->Ok_0@ == sum->Ok_0@
        },
{
}

/// Under a decay, a strategy gives what the decay gives: the end of the shortest age plus
/// what `scale` returned, and an error where an age or the sum has no date.
pub proof fn cubic_strategies_are_sums<S: Fn(i128, usize, usize, i32) -> i128>(
    decay: CubicDecay,
    start: UtcTime,
    file_size: usize,
    max_size: usize,
    scale: S,
    date: Result<UtcTime, DateOverflow>,
    earliest: Result<UtcTime, DateOverflow>,
    shortest: Result<i128, DateOverflow>,
    longest: Result<i128, DateOverflow>,
)
    requires
        call_ensures(
            ExpireStrategy::calculate_lifespan::<S>,
            (&ExpireStrategy::Cubic(Box::new(decay)), &start, file_size, max_size, &scale),
            date,
        ),
        call_ensures(UtcTime::checked_add, (&start, &decay.min_age), earliest),
        call_ensures(Span::to_nanos, (&decay.min_age, &start), shortest),
        call_ensures(Span::to_nanos, (&decay.max_age, &start), longest),
    ensures
        earliest is Err || longest is Err ==> date is Err,
        earliest is Ok && longest is Ok ==> {
            &&& shortest is Ok
            &&& exists|scaled: i128|
                {
                    let end = earliest->Ok_0@ + scaled;
                    &&& #[trigger] call_ensures(
                        scale,
                        ((shortest->Ok_0 - longest->Ok_0) as i128, file_size, max_size, decay.power),
                        scaled,
                    )
                    &&& date is Ok <==> MIN_NANOS <= end <= MAX_NANOS
                    &&& date is Ok ==> date->Ok_0@ == end
                }
        },
{
}

/// A decay consists of the ages and the power that it is made of.
pub proof fn decays_keep_their_parts(min: Span, max: Span, power: i32, decay: CubicDecay)
    requires
        call_ensures(CubicDecay::new, (min, max, power), decay),
    ensures
        decay.min_age@ == min@,
        decay.max_age@ == max@,
        decay.power == power,
{
}

/// Whether the server has settled: on what it had settled on before, or else on the ages
/// of the settings and the third power.
pub open spec fn settles(before: ServerStrategy, settings: Settings, after: ServerStrategy) -> bool {
    &&& after.decay is Some
    &&& before.decay is Some ==> {
        &&& after.decay->0.min_age@ == before.decay->0.min_age@
        &&& after.decay->0.max_age@ == before.decay->0.max_age@
        &&& after.decay->0.power == before.decay->0.power
    }
    &&& before.decay is None ==> {
        &&& after.decay->0.min_age@ == settings.min_file_age@
        &&& after.decay->0.max_age@ == settings.max_file_age@
        &&& after.decay->0.power == 3
    }
}

/// Nothing is settled at first.
pub proof fn nothing_is_settled_at_first(strategy: ServerStrategy)
    requires
        call_ensures(ServerStrategy::new, (), strategy),
    ensures
        strategy.decay is None,
{
}

/// An upload that is made now fails as incomplete if and only if it is, and for its media
/// type only if one was detected that is none. Only a complete one settles anything. The
/// wish being none, it fails for its dates only if there is an instant for which the
/// server's ages have no date.
pub proof fn new_uploads_fail_for_a_reason<S: Fn(i128, usize, usize, i32) -> i128>(
    b: PostDataBuilder,
    settings: Settings,
    strategy: &mut ServerStrategy,
    scale: S,
    post: Result<PostData, BuilderError>,
)
    requires
        call_ensures(PostDataBuilder::construct::<S>, (b, &settings, strategy, &scale), post),
    ensures
        b.file_name is None <==> post == Err::<PostData, BuilderError>(
            BuilderError::MissingFileName,
        ),
        b.file_name is Some && b.file_data is None <==> post == Err::<PostData, BuilderError>(
            BuilderError::MissingFileData,
        ),
        post == Err::<PostData, BuilderError>(BuilderError::MIMEError) ==> exists|found: Seq<char>|
            #[trigger] detectable(b.file_data->0@, found) && media_type(found) is None,
        b.file_name is Some && b.file_data is Some ==> settles(
            *old(strategy),
            settings,
            *final(strategy),
        ),
        b.file_name is None || b.file_data is None ==> final(strategy)@ == old(strategy)@,
        post is Err && post->Err_0 is OverflowingExpirationSpan && b.expire_strategy is None
            && b.file_size is Some ==> exists|created: int|
            MIN_NANOS <= created <= MAX_NANOS && #[trigger] decayed(
                final(strategy).decay->0@,
                created,
                b.file_size->0,
                settings.upload_size_limit,
                scale,
                None,
            ),
{
}

/// The server settles on the ages of the settings and the third power, and keeps to what it
/// has settled on.
pub proof fn the_server_settles_once(
    strategy: &mut ServerStrategy,
    settings: Settings,
    decay: CubicDecay,
)
    requires
        call_ensures(ServerStrategy::get_or_init, (strategy, &settings), decay),
    ensures
        old(strategy).decay is Some ==> {
            let kept = old(strategy).decay->0;
            &&& decay.min_age@ == kept.min_age@
            &&& decay.max_age@ == kept.max_age@
            &&& decay.power == kept.power
        },
        old(strategy).decay is None ==> {
            &&& decay.min_age@ == settings.min_file_age@
            &&& decay.max_age@ == settings.max_file_age@
            &&& decay.power == 3
        },
        final(strategy).decay is Some,
        final(strategy).decay->0@ == decay@,
{
}

/// An upload without a name fails for its name, one with a name but without data for its
/// data. Neither settles anything.
pub proof fn incomplete_uploads_fail<S: Fn(i128, usize, usize, i32) -> i128>(
    b: PostDataBuilder,
    settings: Settings,
    strategy: &mut ServerStrategy,
    created: UtcTime,
    token: UserToken,
    detected: &str,
    scale: S,
    post: Result<PostData, BuilderError>,
)
    requires
        call_ensures(
            PostDataBuilder::assemble::<S>,
            (b, &settings, strategy, created, token, detected, &scale),
            post,
        ),
    ensures
        b.file_name is None <==> post == Err::<PostData, BuilderError>(
            BuilderError::MissingFileName,
        ),
        b.file_name is Some && b.file_data is None <==> post == Err::<PostData, BuilderError>(
            BuilderError::MissingFileData,
        ),
        b.file_name is None || b.file_data is None ==> final(strategy)@ == old(strategy)@,
        b.file_name is Some && b.file_data is Some ==> settles(
            *old(strategy),
            settings,
            *final(strategy),
        ),
{
}

/// An upload that can be made holds what was said of it: the sanitised name, all of the
/// data with its hash, the size, the media type, both flags, and who made it when, under
/// which token.
pub proof fn uploads_hold_what_was_said<S: Fn(i128, usize, usize, i32) -> i128>(
    b: PostDataBuilder,
    settings: Settings,
    strategy: &mut ServerStrategy,
    created: UtcTime,
    token: UserToken,
    detected: &str,
    scale: S,
    p: PostData,
)
    requires
        call_ensures(
            PostDataBuilder::assemble::<S>,
            (b, &settings, strategy, created, token, detected, &scale),
            Ok(p),
        ),
    ensures
        b.file_name is Some && b.file_data is Some,
        p.file_name@ == sanitised(b.file_name->0@, true),
        p.file_data@ == b.file_data->0@,
        p.file_hash@ == xxh3_128_of(b.file_data->0@),
        b.file_size is Some ==> p.file_size == b.file_size->0,
        b.file_size is None && b.file_data->0@.len() <= usize::MAX ==> p.file_size
            == b.file_data->0@.len(),
        media_type(detected@) == Some(p.file_mime@),
        p.secret <==> b.secret == Some(true),
        p.nsfw <==> b.nsfw == Some(true),
        p.creation_date@ == created@,
        p.uploader_ip == b.uploader_ip,
        p.uploader_ua@ == b.uploader_ua@,
        p.access_token@ == token@,
{
}

/// A complete upload fails for its media type only if the detected text is none, and for
/// its dates only if one of them cannot be had.
pub proof fn complete_uploads_are_made<S: Fn(i128, usize, usize, i32) -> i128>(
    b: PostDataBuilder,
    settings: Settings,
    strategy: &mut ServerStrategy,
    created: UtcTime,
    token: UserToken,
    detected: &str,
    scale: S,
    post: Result<PostData, BuilderError>,
    decay: CubicDecay,
    earliest: UtcTime,
    shortest: i128,
    longest: i128,
    size: usize,
)
    requires
        call_ensures(
            PostDataBuilder::assemble::<S>,
            (b, &settings, strategy, created, token, detected, &scale),
            post,
        ),
        b.file_name is Some,
        b.file_data is Some,
        old(strategy).decay == Some(decay) || (old(strategy).decay is None && decay.min_age
            == settings.min_file_age && decay.max_age == settings.max_file_age && decay.power == 3),
        call_ensures(UtcTime::checked_add, (&created, &decay.min_age), Ok(earliest)),
        call_ensures(Span::to_nanos, (&decay.min_age, &created), Ok(shortest)),
        call_ensures(Span::to_nanos, (&decay.max_age, &created), Ok(longest)),
        size == (if b.file_size is Some {
            b.file_size->0 as int
        } else {
            b.file_data->0@.len() as int
        }),
        forall|scaled: i128| #[trigger]
            call_ensures(
                scale,
                (
                    (shortest - longest) as i128,
                    size,
                    settings.upload_size_limit,
                    decay.power,
                ),
                scaled,
            ) ==> MIN_NANOS <= earliest@ + scaled <= MAX_NANOS,
        b.expire_strategy is Some ==> match b.expire_strategy->0 {
            ExpireStrategy::Offset(span) => zoned_plus_span(created@, span@) is Some,
            ExpireStrategy::Cubic(_) => false,
            _ => true,
        },
    ensures
        post is Ok <==> media_type(detected@) is Some,
        post is Err ==> post->Err_0 is MIMEError,
{
}

/// Without a wish, or with one that does not lie before the creation, a file expires when
/// the server's ages say: the shortest after the creation, plus what `scale` returned for
/// the difference of the ages, the size, the limit and the power. A wish that lies before
/// the creation counts.
pub proof fn uploads_expire_as_the_server_says<S: Fn(i128, usize, usize, i32) -> i128>(
    b: PostDataBuilder,
    settings: Settings,
    strategy: &mut ServerStrategy,
    created: UtcTime,
    token: UserToken,
    detected: &str,
    scale: S,
    p: PostData,
    decay: CubicDecay,
    earliest: UtcTime,
    shortest: i128,
    longest: i128,
)
    requires
        call_ensures(
            PostDataBuilder::assemble::<S>,
            (b, &settings, strategy, created, token, detected, &scale),
            Ok(p),
        ),
        old(strategy).decay == Some(decay) || (old(strategy).decay is None && decay.min_age
            == settings.min_file_age && decay.max_age == settings.max_file_age && decay.power == 3),
        call_ensures(UtcTime::checked_add, (&created, &decay.min_age), Ok(earliest)),
        call_ensures(Span::to_nanos, (&decay.min_age, &created), Ok(shortest)),
        call_ensures(Span::to_nanos, (&decay.max_age, &created), Ok(longest)),
    ensures
        exists|scaled: i128|
            {
                let date = earliest@ + scaled;
                &&& #[trigger] call_ensures(
                    scale,
                    (
                        (shortest - longest) as i128,
                        p.file_size,
                        settings.upload_size_limit,
                        decay.power,
                    ),
                    scaled,
                )
                &&& match b.expire_strategy {
                    None => p.expiration_date@ == date,
                    Some(ExpireStrategy::Never) => p.expiration_date@ == (
                    if 253_402_207_200_999_999_999 < created@ {
                        253_402_207_200_999_999_999
                    } else {
                        date
                    }),
                    Some(ExpireStrategy::Exact(wish)) => p.expiration_date@ == (if wish@
                        < created@ {
                        wish@
                    } else {
                        date
                    }),
                    Some(ExpireStrategy::Offset(span)) => {
                        &&& zoned_plus_span(created@, span@) is Some
                        &&& p.expiration_date@ == (if zoned_plus_span(created@, span@)->0
                            < created@ {
                            zoned_plus_span(created@, span@)->0
                        } else {
                            date
                        })
                    },
                    Some(ExpireStrategy::Cubic(_)) => p.expiration_date@ == date
                        || p.expiration_date@ < created@,
                }
            },
{
}

/// What is made of the fields of a form holds the bytes of the last `file` field, all of
/// them, under the sanitised name that came with it.
pub proof fn forms_become_their_last_file<S: Fn(i128, usize, usize, i32) -> i128>(
    b: &mut PostDataBuilder,
    data: Vec<u8>,
    settings: Settings,
    strategy: &mut ServerStrategy,
    scale: S,
    p: PostData,
)
    requires
        call_ensures(PostDataBuilder::take_bytes, (b, Some(data)), Ok(())),
        call_ensures(
            PostDataBuilder::construct::<S>,
            (*final(b), &settings, strategy, &scale),
            Ok(p),
        ),
    ensures
        p.file_data@ == data@,
        p.file_hash@ == xxh3_128_of(data@),
        data@.len() <= usize::MAX ==> p.file_size == data@.len(),
        old(b).file_name is Some,
        p.file_name@ == sanitised(old(b).file_name->0@, true),
        p.secret <==> old(b).secret == Some(true),
        p.nsfw <==> old(b).nsfw == Some(true),
        p.uploader_ip == old(b).uploader_ip,
        p.uploader_ua@ == old(b).uploader_ua@,
        p.access_token@.len() == 32,
        exists|found: Seq<char>| #[trigger]
            detectable(data@, found) && media_type(found) == Some(p.file_mime@),
{
}

/// An upload that is made now, without a wish, expires when the server's ages say.
pub proof fn new_uploads_expire_as_the_server_says<S: Fn(i128, usize, usize, i32) -> i128>(
    b: PostDataBuilder,
    settings: Settings,
    strategy: &mut ServerStrategy,
    scale: S,
    p: PostData,
    decay: CubicDecay,
    earliest: UtcTime,
    shortest: i128,
    longest: i128,
)
    requires
        call_ensures(PostDataBuilder::construct::<S>, (b, &settings, strategy, &scale), Ok(p)),
        b.expire_strategy is None,
        old(strategy).decay == Some(decay) || (old(strategy).decay is None && decay.min_age
            == settings.min_file_age && decay.max_age == settings.max_file_age && decay.power == 3),
        call_ensures(UtcTime::checked_add, (&p.creation_date, &decay.min_age), Ok(earliest)),
        call_ensures(Span::to_nanos, (&decay.min_age, &p.creation_date), Ok(shortest)),
        call_ensures(Span::to_nanos, (&decay.max_age, &p.creation_date), Ok(longest)),
    ensures
        exists|scaled: i128|
            {
                &&& #[trigger] call_ensures(
                    scale,
                    (
                        (shortest - longest) as i128,
                        p.file_size,
                        settings.upload_size_limit,
                        decay.power,
                    ),
                    scaled,
                )
                &&& p.expiration_date@ == earliest@ + scaled
            },
{
}

/// The secret flag is noted as told, and the rest is kept.
pub proof fn the_secret_flag_is_noted(
    b: &mut PostDataBuilder,
    secret: bool,
    r: &mut PostDataBuilder,
)
    requires
        call_ensures(PostDataBuilder::with_secret, (b, secret), r),
    ensures
        old(r).secret == Some(secret),
        same_but(*old(b), *old(r), false, false, false, true, false, false),
        final(b)@ == final(r)@,
{
}

/// The flag for what is not safe for work is noted as told, and the rest is kept.
pub proof fn the_nsfw_flag_is_noted(
    b: &mut PostDataBuilder,
    nsfw: bool,
    r: &mut PostDataBuilder,
)
    requires
        call_ensures(PostDataBuilder::with_nsfw, (b, nsfw), r),
    ensures
        old(r).nsfw == Some(nsfw),
        same_but(*old(b), *old(r), false, false, false, false, true, false),
        final(b)@ == final(r)@,
{
}

/// The name of the file is noted as told, and the rest is kept.
pub proof fn the_file_name_is_noted(
    b: &mut PostDataBuilder,
    name: String,
    r: &mut PostDataBuilder,
)
    requires
        call_ensures(PostDataBuilder::with_file_name, (b, name), r),
    ensures
        old(r).file_name is Some && old(r).file_name->0@ == name@,
        same_but(*old(b), *old(r), true, false, false, false, false, false),
        final(b)@ == final(r)@,
{
}

/// The data is noted byte for byte, and the rest is kept, the size too.
pub proof fn the_data_is_noted(
    b: &mut PostDataBuilder,
    data: Vec<u8>,
    r: &mut PostDataBuilder,
)
    requires
        call_ensures(PostDataBuilder::with_file_data, (b, data), r),
    ensures
        old(r).file_data is Some && old(r).file_data->0@ == data@,
        old(r).file_size == old(b).file_size,
        same_but(*old(b), *old(r), false, false, true, false, false, false),
        final(b)@ == final(r)@,
{
}

/// The size is noted as told, and the rest is kept, the data too.
pub proof fn the_size_is_noted(
    b: &mut PostDataBuilder,
    size: usize,
    r: &mut PostDataBuilder,
)
    requires
        call_ensures(PostDataBuilder::with_file_size, (b, size), r),
    ensures
        old(r).file_size == Some(size),
        old(r).file_data is Some <==> old(b).file_data is Some,
        old(b).file_data is Some ==> old(r).file_data->0@ == old(b).file_data->0@,
        same_but(*old(b), *old(r), false, false, true, false, false, false),
        final(b)@ == final(r)@,
{
}

/// The media type that the text names is noted, or none, and the rest is kept.
pub proof fn the_media_type_is_noted(
    b: &mut PostDataBuilder,
    text: &str,
    r: &mut PostDataBuilder,
)
    requires
        call_ensures(PostDataBuilder::with_content_type, (b, text), r),
    ensures
        old(r).content_encoding is Some <==> media_type(text@) is Some,
        media_type(text@) is Some ==> old(r).content_encoding->0@ == media_type(text@)->0,
        same_but(*old(b), *old(r), false, true, false, false, false, false),
        final(b)@ == final(r)@,
{
}

/// The wish is noted as told, and the rest is kept.
pub proof fn the_wish_is_noted(
    b: &mut PostDataBuilder,
    wish: ExpireStrategy,
    r: &mut PostDataBuilder,
)
    requires
        call_ensures(PostDataBuilder::with_expire_strategy, (b, wish), r),
    ensures
        old(r).expire_strategy is Some && old(r).expire_strategy->0@ == wish@,
        same_but(*old(b), *old(r), false, false, false, false, false, true),
        final(b)@ == final(r)@,
{
}

/// Sanitising gives the windows-safe name, which is not empty.
pub proof fn names_are_sanitised(name: &str, safe: String)
    requires
        call_ensures(sanitize_file_name, (name,), safe),
    ensures
        safe@ == sanitised(name@, true),
        safe@.len() > 0,
        forall|i: int|
            0 <= i < safe@.len() ==> safe@[i] >= ' ' && safe@[i] != '/' && safe@[i] != '\\'
                && safe@[i] != ':' && safe@[i] != '*' && safe@[i] != '?' && safe@[i] != '"'
                && safe@[i] != '<' && safe@[i] != '>' && #[trigger] safe@[i] != '|',
{
    assert forall|i: int| 0 <= i < safe@.len() implies safe@[i] >= ' ' && safe@[i] != '/'
        && safe@[i] != '\\' && safe@[i] != ':' && safe@[i] != '*' && safe@[i] != '?' && safe@[i]
        != '"' && safe@[i] != '<' && safe@[i] != '>' && #[trigger] safe@[i] != '|' by {
        assert(crate::outside::is_windows_safe_char(safe@[i]));
    }
}

/// Uploads that cannot be made are answered by what is missing.
pub proof fn failed_uploads_are_answered(e: BuilderError, r: Rejection)
    requires
        call_ensures(refuse_builder, (e,), r),
    ensures
        e is MissingFileName || e is MissingFileData ==> is_refusal(
            r,
            400,
            "Missing file data or file name."@,
        ),
        e is OverflowingExpirationSpan ==> is_refusal(
            r,
            500,
            "Error calculating expiration date."@,
        ),
        e is MIMEError ==> is_refusal(r, 500, "Can't determine file type."@),
{
}

/// A field asks for deletion if and only if it is named so. One without a name is refused.
pub proof fn only_delete_asks_for_deletion(
    name: Option<&str>,
    asked: Result<Modification, Rejection>,
)
    requires
        call_ensures(modify_field, (name,), asked),
    ensures
        asked is Err <==> name is None,
        name is None ==> is_refusal(asked->Err_0, 400, "A field w/o a name. wtf."@),
        name is Some ==> (asked->Ok_0 == Modification::Delete <==> name->0@ == "delete"@),
        name is Some ==> (asked->Ok_0 == Modification::Nothing <==> name->0@ != "delete"@),
{
}

} // verus!
