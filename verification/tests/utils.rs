use mainlogic::utils::calculate_hash;
use mainlogic::utils::create_response_map;
use mainlogic::utils::create_response_map_at;
use mainlogic::utils::format_response;
use mainlogic::utils::get_version;
use mainlogic::utils::process_input_data;
use mainlogic::utils::validate_input;
use mainlogic::utils::MAX_INPUT_BYTES;
use std::collections::hash_map::DefaultHasher;
use std::hash::Hash;
use std::hash::Hasher;

fn pair(key: &str, value: &str) -> (String, String) {
    (key.to_string(), value.to_string())
}

fn clock_seconds() -> u64 {
    match std::time::SystemTime::now().duration_since(std::time::UNIX_EPOCH) {
        Ok(elapsed) => elapsed.as_secs(),
        Err(_) => 0,
    }
}

fn reference_hash(data: &str) -> String {
    let mut hasher = DefaultHasher::new();
    data.hash(&mut hasher);
    format!("{:x}", hasher.finish())
}

#[test]
fn the_version_is_fixed() {
    assert_eq!(get_version(), "1.0.0");
}

#[test]
fn process_input_data_inverts_ascii_case() {
    assert_eq!(process_input_data("Hello, World 42!"), "Processed: hELLO, wORLD 42!");
    assert_eq!(process_input_data("abcXYZ"), "Processed: ABCxyz");
    assert_eq!(process_input_data("azAZ"), "Processed: AZaz");
}

#[test]
fn process_input_data_of_nothing_is_the_prefix() {
    assert_eq!(process_input_data(""), "Processed: ");
}

#[test]
fn process_input_data_leaves_other_characters() {
    assert_eq!(process_input_data("@[`{ 0-9 \n\t"), "Processed: @[`{ 0-9 \n\t");
    assert_eq!(process_input_data("Ünïcödé ß É"), "Processed: ÜNïCöDé ß É");
    assert_eq!(process_input_data("日本語 Rust 🦀"), "Processed: 日本語 rUST 🦀");
}

#[test]
fn process_input_data_twice_gives_the_letters_back() {
    let once = process_input_data("MiXeD");
    assert_eq!(once, "Processed: mIxEd");
    assert_eq!(process_input_data(&once), "Processed: pROCESSED: MiXeD");
}

#[test]
fn the_hash_is_that_of_the_default_hasher_in_hexadecimal() {
    for data in ["", "a", "hello", "Hello", "The quick brown fox", "日本語"] {
        assert_eq!(calculate_hash(data), reference_hash(data));
    }
}

#[test]
fn the_hash_tells_texts_apart_and_is_stable() {
    assert_eq!(calculate_hash("hello"), calculate_hash("hello"));
    assert_ne!(calculate_hash("hello"), calculate_hash("hellp"));
    assert_ne!(calculate_hash("hello"), "hello");
    let digest = calculate_hash("hello");
    assert!(!digest.is_empty() && digest.len() <= 16);
    assert!(digest.chars().all(|c| c.is_ascii_digit() || ('a'..='f').contains(&c)));
}

#[test]
fn an_empty_input_is_not_valid() {
    assert!(!validate_input(""));
}

#[test]
fn an_input_is_valid_up_to_a_thousand_bytes() {
    assert_eq!(MAX_INPUT_BYTES, 1000);
    assert!(validate_input("a"));
    assert!(validate_input(&"a".repeat(999)));
    assert!(validate_input(&"a".repeat(1000)));
    assert!(!validate_input(&"a".repeat(1001)));
    assert!(!validate_input(&"a".repeat(5000)));
}

#[test]
fn the_length_of_an_input_counts_bytes() {
    assert!(validate_input(&"é".repeat(500)));
    assert!(!validate_input(&"é".repeat(501)));
    assert!(validate_input(&"🦀".repeat(250)));
    assert!(!validate_input(&"🦀".repeat(251)));
    let mut mixed = "日".repeat(333);
    assert!(validate_input(&mixed));
    mixed.push('a');
    assert!(validate_input(&mixed));
    mixed.push('a');
    assert!(!validate_input(&mixed));
}

#[test]
fn the_metadata_of_a_response_at_a_given_time() {
    let metadata = create_response_map_at(Some((1_700_000_000, 250)));
    assert_eq!(
        metadata,
        vec![
            pair("version", "1.0.0"),
            pair("status", "ok"),
            pair("timestamp", "1700000000"),
        ]
    );
    assert_eq!(create_response_map_at(Some((0, 999)))[2], pair("timestamp", "0"));
    assert_eq!(create_response_map_at(None)[2], pair("timestamp", "0"));
    assert_eq!(
        create_response_map_at(Some((u64::MAX, 0)))[2],
        pair("timestamp", "18446744073709551615")
    );
}

#[test]
fn the_metadata_of_a_response_made_now() {
    let before = clock_seconds();
    let metadata = create_response_map();
    let after = clock_seconds();
    assert_eq!(metadata.len(), 3);
    assert_eq!(metadata[0], pair("version", "1.0.0"));
    assert_eq!(metadata[1], pair("status", "ok"));
    assert_eq!(metadata[2].0, "timestamp");
    let seconds: u64 = metadata[2].1.parse().unwrap();
    assert!(seconds + 60 >= before && seconds <= after + 60);
    assert_eq!(metadata[2].1, seconds.to_string());
}

#[test]
fn a_response_has_a_line_for_each_entry() {
    let metadata = vec![pair("version", "1.0.0"), pair("status", "ok")];
    assert_eq!(
        format_response("payload", &metadata),
        "Data: payload\nversion: 1.0.0\nstatus: ok"
    );
}

#[test]
fn a_response_without_metadata_is_the_data_line() {
    assert_eq!(format_response("payload", &Vec::new()), "Data: payload");
    assert_eq!(format_response("", &Vec::new()), "Data: ");
}

#[test]
fn a_response_keeps_the_order_of_the_entries() {
    let metadata = vec![pair("b", "2"), pair("a", "1"), pair("b", "3"), pair("", "")];
    assert_eq!(format_response("x", &metadata), "Data: x\nb: 2\na: 1\nb: 3\n: ");
}

#[test]
fn a_response_made_from_its_own_metadata() {
    let metadata = create_response_map_at(Some((12, 0)));
    assert_eq!(
        format_response("ready", &metadata),
        "Data: ready\nversion: 1.0.0\nstatus: ok\ntimestamp: 12"
    );
}
