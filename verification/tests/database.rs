use cabinet::address::SocketAddress;
use cabinet::database::{Database, MetaFile};
use cabinet::time::UtcTime;
use cabinet::token::{UserToken, XXH3_128Hash};

fn meta(name: &str) -> MetaFile {
    MetaFile {
        file_name: name.to_string(),
        file_size: 4,
        uri_path: format!("at-{}", name),
        mime_type: "text/plain".to_string(),
        nsfw: false,
        creation_date: UtcTime::from_nanos(1).unwrap(),
        expiration_date: UtcTime::from_nanos(2).unwrap(),
        restricted: false,
        access_token: UserToken::new([4; 32]),
        hash: XXH3_128Hash::from(77u128),
        uploader_ua: "agent".to_string(),
        uploader_ip: SocketAddress::V4 { address: 1, port: 2 },
    }
}

#[test]
fn a_new_database_is_empty() {
    let data = Database::new().into_data();
    assert!(data.blocklist_ip.is_empty());
    assert_eq!(data.blocklist_ua.len(), 0);
    assert!(data.hashes_on_fs.is_empty());
    assert_eq!(data.url_file_map.len(), 0);
    assert!(data.hash_file_map.is_empty());
}

#[test]
fn files_are_entered_by_address() {
    let mut db = Database::new();
    db.insert(meta("name"));
    db.insert_at("uri".to_string(), meta("other"));
    assert_eq!(db.file_at("at-name").unwrap().file_name, "name");
    assert!(db.file_at("name").is_none());
    assert_eq!(db.file_at("uri").unwrap().file_name, "other");
    assert!(db.file_at("other").is_none());
    db.insert_at("uri".to_string(), meta("third"));
    assert_eq!(db.file_at("uri").unwrap().file_name, "third");
    db.remove_url("uri");
    db.remove_url("nowhere");
    assert!(db.file_at("uri").is_none());
    assert_eq!(db.urls().len(), 1);
}

#[test]
fn hashes_are_counted_up_and_down() {
    let mut db = Database::new();
    let a = XXH3_128Hash::from(1u128);
    let b = XXH3_128Hash::from(2u128);
    assert!(!db.insert_hash(a));
    assert!(db.insert_hash(a));
    assert!(db.insert_hash(a));
    assert!(!db.insert_hash(b));
    assert_eq!(db.references(&a), Some(3));
    assert_eq!(db.references(&b), Some(1));
    assert!(db.remove_hash(a));
    assert!(db.remove_hash(a));
    assert!(!db.remove_hash(a));
    assert!(!db.remove_hash(a));
    assert_eq!(db.references(&a), None);
    assert_eq!(db.references(&b), Some(1));
}

#[test]
fn clients_are_blocked_by_address_and_port() {
    let mut db = Database::new();
    let a = SocketAddress::V4 { address: 1, port: 2 };
    let b = SocketAddress::V4 { address: 1, port: 3 };
    let c = SocketAddress::V6 { segments: 1, port: 2, flow_info: 0, scope_id: 0 };
    db.block_ip(a);
    db.block_ip(a);
    assert!(db.is_ip_blocked(&a));
    assert!(!db.is_ip_blocked(&b));
    assert!(!db.is_ip_blocked(&c));
    db.block_ip(c);
    assert!(db.is_ip_blocked(&c));
    assert_eq!(db.into_data().blocklist_ip, vec![a, c]);
}

#[test]
fn programs_are_blocked_by_their_whole_name() {
    let mut db = Database::new();
    db.block_ua("curl/8".to_string());
    assert!(db.is_ua_blocked("curl/8"));
    assert!(!db.is_ua_blocked("curl/8.1"));
    assert!(!db.is_ua_blocked("curl"));
}

#[test]
fn a_snapshot_holds_everything() {
    let mut db = Database::new();
    db.insert_at("u".to_string(), meta("n"));
    db.insert_hash(XXH3_128Hash::from(5u128));
    db.block_ip(SocketAddress::V4 { address: 1, port: 2 });
    db.block_ua("bot".to_string());
    let mut data = db.into_data();
    data.hash_file_map.insert(9, meta("bad"));
    let db = Database::from_data(data);
    let copy = db.snapshot();
    assert_eq!(copy.blocklist_ip, vec![SocketAddress::V4 { address: 1, port: 2 }]);
    assert!(copy.blocklist_ua.contains_key("bot"));
    assert_eq!(copy.hashes_on_fs.get(&5), Some(&1));
    assert_eq!(copy.url_file_map.get("u").unwrap().file_name, "n");
    assert_eq!(copy.url_file_map.get("u").unwrap().uri_path, "at-n");
    assert_eq!(copy.hash_file_map.get(&9).unwrap().file_name, "bad");
    let again = Database::from_data(copy);
    assert!(again.is_restricted(&XXH3_128Hash::from(9u128)));
    assert!(again.is_ua_blocked("bot"));
    assert_eq!(again.file_at("u").unwrap().file_size, 4);
    assert_eq!(db.references(&XXH3_128Hash::from(5u128)), Some(1));
}
