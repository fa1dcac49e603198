use cabinet::table::TextTable;
use cabinet::text::{characters, decimal_text, make_unique, parse_integer, same_text};

#[test]
fn decimal_text_writes_digits() {
    assert_eq!(decimal_text(0), "0");
    assert_eq!(decimal_text(9), "9");
    assert_eq!(decimal_text(10), "10");
    assert_eq!(decimal_text(1205), "1205");
    assert_eq!(decimal_text(u64::MAX), "18446744073709551615");
}

#[test]
fn integers_are_read_like_i64() {
    for text in [
        "0",
        "5",
        "+5",
        "-5",
        "007",
        "-0",
        "",
        "+",
        "-",
        "--1",
        "+-1",
        " 1",
        "1 ",
        "1_000",
        "0x10",
        "12a",
        "1.5",
        "\u{0665}",
        "9223372036854775807",
        "9223372036854775808",
        "-9223372036854775808",
        "-9223372036854775809",
        "18446744073709551616",
        "00000000000000000000000000000000000000017",
        "99999999999999999999999999999999999999999999",
    ] {
        assert_eq!(parse_integer(text), text.parse::<i64>().ok(), "{}", text);
    }
}

#[test]
fn texts_are_compared_whole() {
    assert!(same_text("file", "file"));
    assert!(!same_text("file", "File"));
    assert!(!same_text("file", "files"));
    assert!(same_text("", ""));
}

#[test]
fn characters_are_listed_in_order() {
    assert_eq!(characters("aß😀"), vec!['a', 'ß', '😀']);
    assert_eq!(characters(""), Vec::<char>::new());
}

#[test]
fn a_free_name_stays() {
    let table: TextTable<u8> = TextTable::new();
    assert_eq!(make_unique("a.txt".to_string(), &table), "a.txt");
}

#[test]
fn a_taken_name_gets_the_first_free_number() {
    let mut table: TextTable<u8> = TextTable::new();
    table.insert("a".to_string(), 0);
    assert_eq!(make_unique("a".to_string(), &table), "a_1");
    table.insert("a_1".to_string(), 0);
    table.insert("a_3".to_string(), 0);
    assert_eq!(make_unique("a".to_string(), &table), "a_2");
    table.insert("a_2".to_string(), 0);
    assert_eq!(make_unique("a".to_string(), &table), "a_4");
    for n in 4..12 {
        table.insert(format!("a_{}", n), 0);
    }
    assert_eq!(make_unique("a".to_string(), &table), "a_12");
    assert_eq!(make_unique("b".to_string(), &table), "b");
}

#[test]
fn tables_keep_one_value_per_key() {
    let mut table: TextTable<u32> = TextTable::new();
    assert_eq!(table.len(), 0);
    table.insert("one".to_string(), 1);
    table.insert("two".to_string(), 2);
    table.insert("three".to_string(), 3);
    table.insert("two".to_string(), 22);
    assert_eq!(table.len(), 3);
    assert_eq!(table.get("two"), Some(&22));
    assert_eq!(table.get("four"), None);
    table.remove("one");
    table.remove("four");
    assert_eq!(table.len(), 2);
    assert!(!table.contains_key("one"));
    assert_eq!(table.get("three"), Some(&3));
    let mut keys: Vec<String> = table.entries().iter().map(|e| e.0.clone()).collect();
    keys.sort();
    assert_eq!(keys, vec!["three".to_string(), "two".to_string()]);
}
