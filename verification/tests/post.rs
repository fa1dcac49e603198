use cabinet::address::SocketAddress;
use cabinet::expire::ExpireStrategy;
use cabinet::form::{modify_field, refuse_builder, FieldStep, Modification};
use cabinet::post::{sanitize_file_name, BuilderError, PostData, PostDataBuilder, ServerStrategy};
use cabinet::reply::Rejection;
use cabinet::settings::Settings;
use cabinet::time::{DateOverflow, Span, SpanUnits, UtcTime};
use cabinet::token::{UserToken, XXH3_128Hash};

const HOUR: i128 = 3_600_000_000_000;

fn scale(difference: i128, file_size: usize, max_size: usize, power: i32) -> i128 {
    jiff::SignedDuration::from_nanos_i128(difference)
        .mul_f64((file_size as f64 / max_size as f64 - 1f64).powi(power))
        .as_nanos()
}

fn settings() -> Settings {
    Settings {
        bind_https: "127.0.0.1:8443".to_string(),
        upload_size_limit: 1000,
        max_file_age: Span::hours(90),
        min_file_age: Span::hours(10),
        fqdn: None,
    }
}

fn client() -> SocketAddress {
    SocketAddress::V4 { address: 0x7f000001, port: 5000 }
}

fn builder() -> PostDataBuilder {
    PostData::builder(client(), "agent".to_string())
}

fn at(nanos: i128) -> UtcTime {
    UtcTime::from_nanos(nanos).unwrap()
}

fn token() -> UserToken {
    UserToken::new([3u8; 32])
}

#[test]
fn names_are_made_safe() {
    let options = sanitise_file_name::Options {
        windows_safe: true,
        ..sanitise_file_name::Options::DEFAULT
    };
    for name in ["a.txt", "a/b:c*d?.txt", "CON", "nul.txt", "", "  x  ", "..", "a\u{0}b", "<>|"] {
        let safe = sanitize_file_name(name);
        assert_eq!(safe, sanitise_file_name::sanitize_with_options(name, &options));
        assert!(!safe.is_empty());
        assert!(!safe.contains(['<', '>', ':', '"', '/', '\\', '|', '?', '*', '\u{0}']));
    }
    assert_eq!(sanitize_file_name("a?b.txt"), "a_b.txt");
    assert_eq!(sanitize_file_name("plain.txt"), "plain.txt");
    assert!(sanitize_file_name(&"x".repeat(1000)).len() <= 255);
}

#[test]
fn a_builder_knows_only_the_uploader() {
    let b = builder();
    assert!(b.secret.is_none() && b.file_name.is_none() && b.file_size.is_none());
    assert!(b.file_data.is_none() && b.content_encoding.is_none());
    assert!(b.nsfw.is_none() && b.expire_strategy.is_none());
    assert_eq!(b.uploader_ip, client());
    assert_eq!(b.uploader_ua, "agent");
}

#[test]
fn builders_can_be_chained() {
    let mut b = builder();
    b.with_secret(true).with_file_name("n".to_string()).with_file_data(vec![1, 2]).with_nsfw(true);
    b.with_file_size(9).with_content_type("text/plain; charset=utf-8");
    b.with_expire_strategy(ExpireStrategy::Never);
    assert_eq!(b.secret, Some(true));
    assert_eq!(b.file_name.as_deref(), Some("n"));
    assert_eq!(b.file_data.as_deref(), Some(&[1u8, 2][..]));
    assert_eq!(b.nsfw, Some(true));
    assert_eq!(b.file_size, Some(9));
    assert_eq!(b.content_encoding.as_deref(), Some("text/plain; charset=utf-8"));
    b.with_content_type("TEXT/HTML");
    assert_eq!(b.content_encoding.as_deref(), Some("text/html"));
    b.with_content_type("nonsense");
    assert_eq!(b.content_encoding, None);
    b.with_secret(false);
    assert_eq!(b.secret, Some(false));
}

#[test]
fn an_upload_is_assembled() {
    let mut b = builder();
    b.with_file_name("a?b.txt".to_string()).with_file_data(b"hello".to_vec());
    let post = b.assemble(&settings(), &mut ServerStrategy::new(), at(HOUR), token(), "TEXT/plain", &scale).unwrap();
    assert_eq!(post.file_name, "a_b.txt");
    assert_eq!(post.file_size, 5);
    assert_eq!(post.file_data, b"hello");
    assert_eq!(post.file_hash.0, xxhash_rust::xxh3::xxh3_128(b"hello").to_be_bytes());
    assert_eq!(post.file_mime, "text/plain");
    assert!(!post.secret && !post.nsfw);
    assert_eq!(post.creation_date.nanos(), HOUR);
    assert_eq!(post.uploader_ip, client());
    assert_eq!(post.uploader_ua, "agent");
    assert!(post.access_token.equals(&token()));
    let expected = HOUR + 10 * HOUR + scale(-80 * HOUR, 5, 1000, 3);
    assert_eq!(post.expiration_date.nanos(), expected);
}

#[test]
fn the_size_that_was_told_counts() {
    let mut b = builder();
    b.with_file_name("a".to_string()).with_file_data(vec![0]).with_file_size(500);
    let post = b.assemble(&settings(), &mut ServerStrategy::new(), at(0), token(), "text/plain", &scale).unwrap();
    assert_eq!(post.file_size, 500);
    assert_eq!(post.expiration_date.nanos(), 20 * HOUR);
}

#[test]
fn a_wish_counts_only_before_the_creation() {
    let mut b = builder();
    b.with_file_name("a".to_string()).with_file_data(vec![0]).with_file_size(1000);
    b.with_expire_strategy(ExpireStrategy::Exact(at(5)));
    let post = b.assemble(&settings(), &mut ServerStrategy::new(), at(6), token(), "text/plain", &scale).unwrap();
    assert_eq!(post.expiration_date.nanos(), 5);

    let mut b = builder();
    b.with_file_name("a".to_string()).with_file_data(vec![0]).with_file_size(1000);
    b.with_expire_strategy(ExpireStrategy::Offset(Span::hours(1)));
    let post = b.assemble(&settings(), &mut ServerStrategy::new(), at(6), token(), "text/plain", &scale).unwrap();
    assert_eq!(post.expiration_date.nanos(), 6 + 10 * HOUR);
}

#[test]
fn incomplete_uploads_are_refused() {
    let error = builder().assemble(&settings(), &mut ServerStrategy::new(), at(0), token(), "text/plain", &scale).unwrap_err();
    assert_eq!(error, BuilderError::MissingFileName);
    let mut b = builder();
    b.with_file_data(vec![1]);
    let error = b.assemble(&settings(), &mut ServerStrategy::new(), at(0), token(), "text/plain", &scale).unwrap_err();
    assert_eq!(error, BuilderError::MissingFileName);
    let mut b = builder();
    b.with_file_name("a".to_string());
    let error = b.assemble(&settings(), &mut ServerStrategy::new(), at(0), token(), "text/plain", &scale).unwrap_err();
    assert_eq!(error, BuilderError::MissingFileData);
}

#[test]
fn dates_out_of_range_and_unknown_types_are_refused() {
    let mut b = builder();
    b.with_file_name("a".to_string()).with_file_data(vec![1]);
    let error = b.assemble(&settings(), &mut ServerStrategy::new(), UtcTime::max(), token(), "text/plain", &scale).unwrap_err();
    assert_eq!(error, BuilderError::OverflowingExpirationSpan(DateOverflow));

    let mut b = builder();
    b.with_file_name("a".to_string()).with_file_data(vec![1]);
    b.with_expire_strategy(ExpireStrategy::Offset(Span::hours(175_307_615)));
    let error = b.assemble(&settings(), &mut ServerStrategy::new(), at(0), token(), "text/plain", &scale).unwrap_err();
    assert_eq!(error, BuilderError::OverflowingExpirationSpan(DateOverflow));

    let mut b = builder();
    b.with_file_name("a".to_string()).with_file_data(vec![1]);
    let error = b.assemble(&settings(), &mut ServerStrategy::new(), at(0), token(), "no type", &scale).unwrap_err();
    assert_eq!(error, BuilderError::MIMEError);
}

#[test]
fn construction_goes_by_the_data_and_the_clock() {
    let mut b = builder();
    let png: Vec<u8> = vec![0x89, b'P', b'N', b'G', 0x0d, 0x0a, 0x1a, 0x0a, 0, 0, 0, 13];
    b.with_file_name("p".to_string()).with_file_data(png.clone()).with_secret(true);
    let before = UtcTime::now();
    let post = b.construct(&settings(), &mut ServerStrategy::new(), &scale).unwrap();
    assert!(!post.creation_date.is_before(&before));
    assert!(post.secret);
    assert_eq!(post.file_mime, tree_magic_mini::from_u8(&png));
    assert_eq!(post.file_hash.0, XXH3_128Hash::calculate(&png).0);
    let mut c = builder();
    c.with_file_name("p".to_string()).with_file_data(png);
    let other = c.construct(&settings(), &mut ServerStrategy::new(), &scale).unwrap();
    assert!(!other.access_token.equals(&post.access_token));
    assert!(builder().construct(&settings(), &mut ServerStrategy::new(), &scale).is_err());
}

#[test]
fn fields_fill_the_builder() {
    let mut b = builder();
    let step = b.take_field(Some("file"), Some("x.txt"), Some("text/plain")).unwrap();
    assert_eq!(step, FieldStep::ReadBytes);
    b.take_bytes(Some(vec![1, 2, 3])).unwrap();
    assert_eq!(b.file_name.as_deref(), Some("x.txt"));
    assert_eq!(b.content_encoding.as_deref(), Some("text/plain"));
    assert_eq!(b.file_size, Some(3));
    assert_eq!(b.file_data, Some(vec![1, 2, 3]));
    assert_eq!(b.take_field(Some("file"), Some("y.txt"), None).unwrap(), FieldStep::ReadBytes);
    assert_eq!(b.content_encoding.as_deref(), Some("text/plain"));
    assert_eq!(b.take_field(Some("secret"), None, None).unwrap(), FieldStep::Done);
    assert_eq!(b.take_field(Some("nsfw"), None, None).unwrap(), FieldStep::Done);
    assert_eq!(b.take_field(Some("other"), None, None).unwrap(), FieldStep::Done);
    assert_eq!(b.take_field(Some("expire"), None, None).unwrap(), FieldStep::ReadText);
    b.take_text(Ok("12".to_string())).unwrap();
    assert!(matches!(b.expire_strategy, Some(ExpireStrategy::Offset(_))));
    assert_eq!(b.secret, Some(true));
    assert_eq!(b.nsfw, Some(true));
}

#[test]
fn secrecy_stays_whatever_follows() {
    let mut b = builder();
    b.take_field(Some("secret"), None, None).unwrap();
    b.take_field(Some("file"), Some("x"), None).unwrap();
    b.take_bytes(Some(vec![])).unwrap();
    b.take_text(Ok("1".to_string())).unwrap();
    b.take_field(Some("nsfw"), None, None).unwrap();
    assert_eq!(b.secret, Some(true));
}

#[test]
fn bad_fields_are_refused() {
    let mut b = builder();
    let refused = b.take_field(None, None, None).unwrap_err();
    assert_eq!((refused.status, refused.message.as_str()), (400, "A field w/o a name. wtf."));
    let refused = b.take_field(Some("file"), None, None).unwrap_err();
    assert_eq!((refused.status, refused.message.as_str()), (400, "A file w/o a file name. wtf."));
    let refused = b.take_bytes(None).unwrap_err();
    assert_eq!((refused.status, refused.message.as_str()), (400, "Error extracting data."));
    let refused = b.take_text(Err(Rejection::new(413, "too large"))).unwrap_err();
    assert_eq!((refused.status, refused.message.as_str()), (413, "too large"));
    let refused = b.take_text(Ok("-3".to_string())).unwrap_err();
    assert_eq!((refused.status, refused.message.as_str()), (400, "Invalid `expires` value."));
    assert!(b.expire_strategy.is_none());
}

#[test]
fn builder_errors_are_answered() {
    for (error, status, message) in [
        (BuilderError::MissingFileName, 400, "Missing file data or file name."),
        (BuilderError::MissingFileData, 400, "Missing file data or file name."),
        (
            BuilderError::OverflowingExpirationSpan(DateOverflow),
            500,
            "Error calculating expiration date.",
        ),
        (BuilderError::MIMEError, 500, "Can't determine file type."),
    ] {
        let refused = refuse_builder(error);
        assert_eq!((refused.status, refused.message.as_str()), (status, message));
    }
}

#[test]
fn only_delete_modifies() {
    assert_eq!(modify_field(Some("delete")).unwrap(), Modification::Delete);
    assert_eq!(modify_field(Some("Delete")).unwrap(), Modification::Nothing);
    assert_eq!(modify_field(Some("file")).unwrap(), Modification::Nothing);
    let refused = modify_field(None).unwrap_err();
    assert_eq!((refused.status, refused.message.as_str()), (400, "A field w/o a name. wtf."));
}

#[test]
fn names_are_no_devices_and_no_full_stops() {
    for name in [".", "..", "...", "CON", "con", "Aux", "lpt1", "COM9", "CON.", ".CON", "CON ", "_CON_"] {
        let safe = sanitize_file_name(name);
        assert!(safe.chars().any(|c| c != '.'), "{}", safe);
        let lower = safe.to_ascii_lowercase();
        assert!(!["con", "aux", "lpt1", "com9"].contains(&lower.as_str()), "{}", safe);
    }
    assert_eq!(sanitize_file_name("CON"), "CON_");
    assert_eq!(sanitize_file_name(".."), "_");
    assert_eq!(sanitize_file_name("a\u{80}b\u{9f}c\u{7f}d"), "a_b_c_d");
}

#[test]
fn the_media_type_comes_from_the_data() {
    let png: Vec<u8> = vec![0x89, b'P', b'N', b'G', 0x0d, 0x0a, 0x1a, 0x0a, 0, 0, 0, 13];
    for data in [png, b"%PDF-1.4\n%abc".to_vec(), b"plain words".to_vec(), Vec::new()] {
        let mut b = builder();
        b.with_file_name("p".to_string()).with_file_data(data.clone());
        let post = b.construct(&settings(), &mut ServerStrategy::new(), &scale).unwrap();
        let expected: mime::Mime = tree_magic_mini::from_u8(&data).parse().unwrap();
        assert_eq!(post.file_mime, expected.to_string());
    }
}

#[test]
fn no_wish_puts_off_the_date() {
    for wish in [
        None,
        Some(ExpireStrategy::Never),
        Some(ExpireStrategy::Exact(at(1_000 * HOUR))),
        Some(ExpireStrategy::Exact(at(0))),
        Some(ExpireStrategy::Offset(Span::hours(500))),
    ] {
        let asked = wish.is_some();
        let mut b = builder();
        b.with_file_name("a".to_string()).with_file_data(vec![0; 250]);
        b.expire_strategy = wish;
        let post = b.assemble(&settings(), &mut ServerStrategy::new(), at(HOUR), token(), "text/plain", &scale).unwrap();
        let lifespan = post.expiration_date.nanos() - post.creation_date.nanos();
        assert!(lifespan <= 90 * HOUR);
        assert!(asked || lifespan >= 10 * HOUR);
    }
}

#[test]
fn the_first_upload_settles_the_ages() {
    let mut strategy = ServerStrategy::new();
    let bare = builder();
    assert!(bare.assemble(&settings(), &mut strategy, at(0), token(), "text/plain", &scale).is_err());
    assert!(strategy.decay.is_none());
    let mut last = Vec::new();
    for hours in [10, 7] {
        let mut current = settings();
        current.min_file_age = Span::hours(hours);
        let mut b = builder();
        b.with_file_name("a".to_string()).with_file_data(vec![0]).with_file_size(1000);
        let post = b.assemble(&current, &mut strategy, at(0), token(), "text/plain", &scale);
        last.push(post.unwrap().expiration_date.nanos());
    }
    assert_eq!(last, vec![10 * HOUR, 10 * HOUR]);
    assert_eq!(strategy.decay.unwrap().min_age.units().hours, 10);
    assert_eq!(strategy.decay.unwrap().power, 3);
    let mut current = settings();
    current.min_file_age = Span::hours(7);
    assert_eq!(strategy.get_or_init(&current).min_age.units().hours, 10);
    assert_eq!(ServerStrategy::new().get_or_init(&current).min_age.units().hours, 7);
}

#[test]
fn ages_in_days_and_months_bound_the_lifespan() {
    let none = Span::hours(0).units();
    let mut current = settings();
    current.min_file_age = Span::from_units(SpanUnits { days: 2, ..none }).unwrap();
    current.max_file_age = Span::from_units(SpanUnits { months: 1, weeks: 1, ..none }).unwrap();
    for size in [0usize, 1, 300, 999, 1000] {
        let mut b = builder();
        b.with_file_name("a".to_string()).with_file_data(vec![0]).with_file_size(size);
        let mut strategy = ServerStrategy::new();
        let post = b.assemble(&current, &mut strategy, at(0), token(), "text/plain", &scale).unwrap();
        let end = post.expiration_date.nanos();
        assert!(48 * HOUR <= end && end <= 38 * 24 * HOUR);
        assert!(size != 0 || end == 38 * 24 * HOUR);
        assert!(size != 1000 || end == 48 * HOUR);
    }
}
