use react_intl_auto::gen_id;
use react_intl_auto::id_generator;
use react_intl_auto::plugin_utils;
use react_intl_auto::simple_utils;

#[test]
fn id_test_murmur32_hash() {
    let hello_hash = gen_id::murmur32_hash("hello");
    let test_msg_hash = gen_id::murmur32_hash("test message");
    let default_msg_hash = gen_id::murmur32_hash("defaultMessage");

    assert!(!hello_hash.is_empty());
    assert!(!test_msg_hash.is_empty());
    assert!(!default_msg_hash.is_empty());

    assert_eq!(hello_hash, "JIv6Rw==");

    let hash1 = gen_id::murmur32_hash("test message");
    let hash2 = gen_id::murmur32_hash("test message");
    assert_eq!(hash1, hash2, "Same input should produce same hash");

    let hash3 = gen_id::murmur32_hash("different message");
    assert_ne!(hash1, hash3, "Different inputs should produce different hashes");
}

#[test]
fn test_hash_string() {
    let result = gen_id::hash_string("hello", "murmur3");
    assert_eq!(result, gen_id::murmur32_hash("hello"));

    let result2 = gen_id::hash_string("hello", "ignored");
    assert_eq!(result2, gen_id::murmur32_hash("hello"));
}

#[test]
fn id_generator_test_murmur32_hash() {
    let hash1 = id_generator::murmur32_hash("test message");
    let hash2 = id_generator::murmur32_hash("test message");
    assert_eq!(hash1, hash2, "Same input should produce same hash");

    let hash3 = id_generator::murmur32_hash("different message");
    assert_ne!(hash1, hash3, "Different inputs should produce different hashes");
}

#[test]
fn test_hash_string_murmur3() {
    let result = id_generator::hash_string("hello", "murmur3");
    assert_eq!(result, id_generator::murmur32_hash("hello"));
}

#[test]
fn test_base64_hash() {
    let result = id_generator::hash_string("hello", "base64");
    assert_eq!(result, "aGVsbG8=");
}

#[test]
fn test_hash_string_default() {
    let result = id_generator::hash_string("hello", "unknown");
    assert_eq!(result, id_generator::murmur32_hash("hello"));
}

#[test]
fn murmur_decimal_is_the_decimal_of_the_base64_hash() {
    // "JIv6Rw==" is the big-endian form of the same 32-bit hash.
    let decimal = id_generator::murmur32_hash("hello");
    let value: u32 = decimal.parse().unwrap();
    assert_eq!(value, 0x248bfa47);
    assert_eq!(decimal, "613153351");
}

#[test]
fn base64_hash_of_empty_input_is_empty() {
    assert_eq!(id_generator::base64_hash(""), "");
    assert_eq!(id_generator::base64_hash("hi"), "aGk=");
}

#[test]
fn murmur_hash_of_empty_input() {
    assert_eq!(id_generator::murmur32_hash(""), "0");
    assert_eq!(gen_id::murmur32_hash(""), "AAAAAA==");
}

#[test]
fn plugin_hashes_agree_with_the_decimal_hash() {
    assert_eq!(plugin_utils::create_hash("hello"), id_generator::murmur32_hash("hello"));
    assert_eq!(simple_utils::create_hash("hello"), "613153351");
    assert_eq!(plugin_utils::hash_string("hello", "base64"), "aGVsbG8=");
    assert_eq!(plugin_utils::hash_string("hello", "murmur3"), "613153351");
}
