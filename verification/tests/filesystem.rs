use cabinet::address::SocketAddress;
use cabinet::database::{Database, MetaFile};
use cabinet::filesystem::{DeletionError, ErrorKind, IoError, LocalTokenizedFilesystem};
use cabinet::filesystem::{RemovalStep, SaveError, SaveStep};
use cabinet::post::PostData;
use cabinet::time::UtcTime;
use cabinet::token::{UserToken, XXH3_128Hash};

fn upload(name: &str, data: &[u8], secret: bool, token: u8) -> PostData {
    PostData {
        secret,
        file_name: name.to_string(),
        file_size: data.len(),
        file_mime: "text/plain".to_string(),
        file_data: data.to_vec(),
        file_hash: XXH3_128Hash::calculate(data),
        nsfw: true,
        creation_date: UtcTime::from_nanos(1).unwrap(),
        expiration_date: UtcTime::from_nanos(2).unwrap(),
        uploader_ip: SocketAddress::V4 { address: 9, port: 8 },
        uploader_ua: "agent".to_string(),
        access_token: UserToken::new([token; 32]),
    }
}

fn empty() -> LocalTokenizedFilesystem {
    LocalTokenizedFilesystem { database: Database::new() }
}

fn save(fs: &mut LocalTokenizedFilesystem, data: PostData) -> (String, bool) {
    assert!(fs.can_save(&data));
    match fs.save(data).unwrap() {
        SaveStep::Stored(uri) => (uri, false),
        SaveStep::Write(uri, _, _) => (uri, true),
    }
}

fn restrict(fs: LocalTokenizedFilesystem, hash: XXH3_128Hash, meta: MetaFile) -> LocalTokenizedFilesystem {
    let mut data = fs.database.into_data();
    data.hash_file_map.insert(hash.number(), meta);
    LocalTokenizedFilesystem { database: Database::from_data(data) }
}

#[test]
fn saved_files_are_found_with_their_metadata() {
    let mut fs = empty();
    let step = fs.save(upload("my file.txt", b"abc", false, 1)).unwrap();
    match step {
        SaveStep::Write(uri, hash, bytes) => {
            assert_eq!(uri, "my+file.txt");
            assert_eq!(hash.0, XXH3_128Hash::calculate(b"abc").0);
            assert_eq!(bytes, b"abc");
        }
        _ => panic!("not written"),
    }
    let meta = fs.get("my+file.txt").unwrap();
    assert_eq!(meta.file_name, "my file.txt");
    assert_eq!(meta.uri_path, "my+file.txt");
    assert_eq!(meta.file_size, 3);
    assert_eq!(meta.mime_type, "text/plain");
    assert!(meta.nsfw && !meta.restricted);
    assert_eq!(meta.creation_date.nanos(), 1);
    assert_eq!(meta.expiration_date.nanos(), 2);
    assert_eq!(meta.uploader_ua, "agent");
    assert_eq!(meta.uploader_ip, SocketAddress::V4 { address: 9, port: 8 });
    assert_eq!(meta.hash.0, XXH3_128Hash::calculate(b"abc").0);
    assert!(meta.access_token.equals(&UserToken::new([1; 32])));
}

#[test]
fn addresses_are_form_encoded() {
    let fs = empty();
    for name in ["a b", "ä.txt", "100%", "a+b~c'(d)", "*-._Az09", "日本"] {
        let expected: String = form_urlencoded::byte_serialize(name.as_bytes()).collect();
        assert_eq!(fs.public_uri(name), expected);
    }
    assert_eq!(fs.public_uri("ä +"), "%C3%A4+%2B");
}

#[test]
fn missing_files_are_not_found() {
    let mut fs = empty();
    let error = fs.get("nothing/here").unwrap_err();
    assert_eq!(error.kind, ErrorKind::NotFound);
    assert_eq!(error.message, "File not found: nothing/here");
}

#[test]
fn equal_names_get_different_addresses() {
    let mut fs = empty();
    assert_eq!(save(&mut fs, upload("a", b"1", false, 1)), ("a".to_string(), true));
    assert_eq!(save(&mut fs, upload("a", b"2", false, 2)), ("a_1".to_string(), true));
    assert_eq!(save(&mut fs, upload("a", b"1", false, 3)), ("a_2".to_string(), false));
    assert!(fs.get("a").unwrap().access_token.equals(&UserToken::new([1; 32])));
    assert!(fs.get("a_1").unwrap().access_token.equals(&UserToken::new([2; 32])));
    assert_eq!(fs.database.references(&XXH3_128Hash::calculate(b"1")), Some(2));
    assert_eq!(fs.database.references(&XXH3_128Hash::calculate(b"2")), Some(1));
}

#[test]
fn secret_addresses_are_random() {
    let mut fs = empty();
    let (a, written) = save(&mut fs, upload("name", b"1", true, 1));
    let (b, again) = save(&mut fs, upload("name", b"1", true, 2));
    assert!(written && !again);
    assert_ne!(a, b);
    assert!(!a.contains("name"));
    assert!(UserToken::from_str(&a).is_ok());
    assert_eq!(a.len(), 44);
    let meta = fs.get(&a).unwrap();
    assert_eq!(meta.file_name, "name");
    assert_eq!(meta.uri_path, a);
}

#[test]
fn a_secret_address_that_is_taken_is_not_used() {
    let mut fs = empty();
    let random = UserToken::new([5; 32]);
    assert_eq!(fs.secret_uri(&random), Some(random.to_string()));
    fs.store(random.to_string(), upload("x", b"1", true, 1));
    assert_eq!(fs.secret_uri(&random), None);
    assert_ne!(fs.draw_secret_uri(), random.to_string());
}

#[test]
fn data_is_deleted_with_its_last_file() {
    let mut fs = empty();
    save(&mut fs, upload("a", b"same", false, 1));
    save(&mut fs, upload("b", b"same", false, 2));
    let hash = XXH3_128Hash::calculate(b"same");
    let one = UserToken::new([1; 32]);
    let two = UserToken::new([2; 32]);
    assert!(fs.can_remove("a", &one));
    assert!(matches!(fs.remove_file("a", &one), Ok(RemovalStep::Removed)));
    assert!(fs.find("a").is_err());
    assert_eq!(fs.database.references(&hash), Some(1));
    match fs.remove_file("b", &two) {
        Ok(RemovalStep::DeleteData(h)) => assert_eq!(h.0, hash.0),
        _ => panic!("data not deleted"),
    }
    assert!(fs.find("b").is_ok());
    assert!(fs.finish_removal("b", Ok(())).is_ok());
    assert!(fs.find("b").is_err());
    assert_eq!(fs.database.references(&hash), None);
}

#[test]
fn a_file_stays_if_its_data_cannot_be_deleted() {
    let mut fs = empty();
    save(&mut fs, upload("a", b"1", false, 1));
    assert!(matches!(
        fs.remove_file("a", &UserToken::new([1; 32])),
        Ok(RemovalStep::DeleteData(_))
    ));
    let error = IoError { kind: ErrorKind::Other, message: "disk".to_string() };
    match fs.finish_removal("a", Err(error)) {
        Err(DeletionError::FilesystemError(e)) => assert_eq!(e.message, "disk"),
        _ => panic!("no error"),
    }
    assert!(fs.find("a").is_ok());
    assert_eq!(fs.database.references(&XXH3_128Hash::calculate(b"1")), Some(1));
}

#[test]
fn only_the_right_token_removes() {
    let mut fs = empty();
    save(&mut fs, upload("a", b"1", false, 1));
    assert!(matches!(
        fs.remove_file("a", &UserToken::new([2; 32])),
        Err(DeletionError::Forbidden)
    ));
    assert!(matches!(
        fs.remove_file("b", &UserToken::new([1; 32])),
        Err(DeletionError::FileNotFound)
    ));
    assert!(fs.find("a").is_ok());
}

#[test]
fn removal_undoes_a_save() {
    let mut fs = empty();
    save(&mut fs, upload("a", b"1", false, 1));
    let (uri, _) = save(&mut fs, upload("a", b"1", false, 2));
    assert!(matches!(
        fs.remove_file(&uri, &UserToken::new([2; 32])),
        Ok(RemovalStep::Removed)
    ));
    assert_eq!(fs.database.urls().len(), 1);
    assert_eq!(fs.database.references(&XXH3_128Hash::calculate(b"1")), Some(1));
    assert_eq!(fs.public_uri("a"), "a_1");
}

#[test]
fn restricted_files_are_refused_and_given_up() {
    let mut fs = empty();
    save(&mut fs, upload("a", b"bad", false, 1));
    save(&mut fs, upload("b", b"good", false, 1));
    let meta = fs.find("a").unwrap();
    let hash = XXH3_128Hash::calculate(b"bad");
    let mut fs = restrict(fs, hash, meta);
    assert!(fs.database.is_restricted(&hash));
    let error = fs.get("a").unwrap_err();
    assert_eq!(error.kind, ErrorKind::ConnectionRefused);
    assert_eq!(error.message, "File has been restricted.");
    assert_eq!(fs.get("a").unwrap_err().kind, ErrorKind::NotFound);
    assert!(fs.get("b").is_ok());
    assert_eq!(fs.database.references(&hash), Some(1));
    assert!(matches!(
        fs.save(upload("c", b"bad", false, 1)),
        Err(SaveError::FileRestricted)
    ));
    assert!(fs.find("c").is_err());
}

#[test]
fn writing_ends_a_save() {
    let saved = LocalTokenizedFilesystem::finish_save("a".to_string(), Ok(())).unwrap();
    assert_eq!(saved, "a");
    let error = IoError { kind: ErrorKind::Other, message: "full".to_string() };
    match LocalTokenizedFilesystem::finish_save("a".to_string(), Err(error)) {
        Err(SaveError::FileSystemError(e)) => assert_eq!(e.message, "full"),
        _ => panic!("no error"),
    }
}

#[test]
fn counts_out_of_step_are_noticed() {
    let mut fs = empty();
    save(&mut fs, upload("a", b"1", false, 1));
    let hash = XXH3_128Hash::calculate(b"1");
    fs.database.remove_hash(hash);
    assert!(!fs.can_remove("a", &UserToken::new([1; 32])));
    assert!(fs.can_remove("a", &UserToken::new([2; 32])));
    assert!(fs.can_remove("b", &UserToken::new([1; 32])));
    let mut data = fs.database.into_data();
    data.hashes_on_fs.insert(hash.number(), 0);
    let fs = LocalTokenizedFilesystem { database: Database::from_data(data) };
    assert!(!fs.can_remove("a", &UserToken::new([1; 32])));
    let mut data = fs.database.into_data();
    data.hashes_on_fs.insert(hash.number(), usize::MAX);
    let fs = LocalTokenizedFilesystem { database: Database::from_data(data) };
    assert!(!fs.can_save(&upload("b", b"1", false, 1)));
    assert!(fs.can_save(&upload("b", b"2", false, 1)));
}

#[test]
fn data_is_read_back_while_a_file_has_it() {
    let mut fs = empty();
    let mut disk: std::collections::HashMap<u128, Vec<u8>> = std::collections::HashMap::new();
    for (name, data) in [("a", &b"one"[..]), ("b", &b"two"[..]), ("c", &b"one"[..])] {
        if let SaveStep::Write(_, hash, bytes) = fs.save(upload(name, data, false, 1)).unwrap() {
            assert!(disk.insert(hash.number(), bytes).is_none());
        }
    }
    assert_eq!(disk.len(), 2);
    let token = UserToken::new([1; 32]);
    for path in ["a", "b"] {
        if let RemovalStep::DeleteData(hash) = fs.remove_file(path, &token).unwrap() {
            assert!(disk.remove(&hash.number()).is_some());
            fs.finish_removal(path, Ok(())).unwrap();
        }
    }
    assert_eq!(disk.len(), 1);
    let left = fs.get("c").unwrap();
    assert_eq!(disk.get(&left.hash.number()).unwrap(), b"one");
}

#[test]
fn addresses_need_no_escaping() {
    let fs = empty();
    for uri in [fs.public_uri("ä b/c?d#e.txt"), fs.draw_secret_uri()] {
        assert!(uri.chars().all(|c| c.is_ascii_alphanumeric() || "-_.*+%=".contains(c)), "{}", uri);
    }
}

#[test]
fn a_file_stays_readable_through_what_happens_to_others() {
    let mut fs = empty();
    let (mine, _) = save(&mut fs, upload("mine", b"shared", false, 1));
    save(&mut fs, upload("other", b"shared", false, 2));
    save(&mut fs, upload("mine", b"different", false, 3));
    assert!(matches!(fs.remove_file("other", &UserToken::new([2; 32])), Ok(RemovalStep::Removed)));
    assert!(fs.remove_file(&mine, &UserToken::new([2; 32])).is_err());
    assert!(matches!(
        fs.remove_file("mine_1", &UserToken::new([3; 32])),
        Ok(RemovalStep::DeleteData(h)) if h.0 == XXH3_128Hash::calculate(b"different").0
    ));
    fs.finish_removal("mine_1", Ok(())).unwrap();
    let meta = fs.get(&mine).unwrap();
    assert_eq!(meta.uri_path, mine);
    assert_eq!(meta.hash.0, XXH3_128Hash::calculate(b"shared").0);
    assert_eq!(fs.database.references(&meta.hash), Some(1));
}

#[test]
fn a_token_is_counted_up_to_a_free_address() {
    let mut fs = empty();
    let token = UserToken::new([5; 32]);
    let mut bytes = [5u8; 32];
    bytes[..16].fill(0);
    assert_eq!(token.numbered(0).bytes(), bytes);
    bytes[14] = 1;
    bytes[15] = 2;
    assert_eq!(token.numbered(258).bytes(), bytes);
    assert_eq!(fs.count_secret_uri(&token), token.numbered(0).to_string());
    for n in [0, 1, 3] {
        fs.store(token.numbered(n).to_string(), upload("x", b"1", true, 1));
    }
    assert_eq!(fs.count_secret_uri(&token), token.numbered(2).to_string());
}
