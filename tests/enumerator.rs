use kvstore::enumerator::{
    bytes_less, collect_range, keys_before, pair_from_parts, KeyValueEnumerator, KeyValuePair, PairResult,
    ScanItem, ScannedPair,
};
use kvstore::error::KeyValueError;
use kvstore::task::enumerate_result;
use kvstore::value::Value;

fn scanned(key: &[u8], value: Value) -> ScanItem {
    Ok(ScannedPair { key: key.to_vec(), value: Ok(value) })
}

fn int_of(v: &Value) -> i64 {
    match v {
        Value::Integer(i) => *i,
        other => panic!("not an integer: {:?}", other),
    }
}

#[test]
fn bytes_order_is_lexicographic() {
    assert!(bytes_less(b"a", b"b"));
    assert!(bytes_less(b"a", b"ab"));
    assert!(!bytes_less(b"ab", b"a"));
    assert!(!bytes_less(b"a", b"a"));
    assert!(bytes_less(b"", b"a"));
    assert!(!bytes_less(b"a", b""));
    assert!(bytes_less(b"az", b"b"));
}

#[test]
fn two_puts_enumerate_in_order() {
    let scan = vec![scanned(b"a", Value::Integer(1)), scanned(b"b", Value::Integer(2))];
    let mut en = KeyValueEnumerator::new(collect_range(scan, ""));
    assert_eq!(en.has_more_elements(), Ok(true));
    let first = en.get_next().unwrap();
    assert_eq!(first.get_key(), "a");
    assert_eq!(int_of(first.get_value()), 1);
    let second = en.get_next().unwrap();
    assert_eq!(second.get_key(), "b");
    assert_eq!(int_of(second.get_value()), 2);
    assert_eq!(en.has_more_elements(), Ok(false));
}

#[test]
fn enumerator_reports_exhaustion() {
    let scan = vec![scanned(b"k", Value::Bool(true))];
    let mut en = KeyValueEnumerator::new(collect_range(scan, ""));
    assert!(en.get_next().is_ok());
    assert_eq!(en.has_more_elements(), Ok(false));
    assert!(matches!(en.get_next(), Err(KeyValueError::Exhausted)));
    assert!(matches!(en.get_next(), Err(KeyValueError::Exhausted)));
}

#[test]
fn empty_enumerator_is_exhausted() {
    let mut en = KeyValueEnumerator::new(Vec::new());
    assert_eq!(en.has_more_elements(), Ok(false));
    assert!(matches!(en.get_next(), Err(KeyValueError::Exhausted)));
}

#[test]
fn range_stops_before_upper_bound() {
    let scan = vec![
        scanned(b"a", Value::Integer(1)),
        scanned(b"b", Value::Integer(2)),
        scanned(b"c", Value::Integer(3)),
    ];
    let out = collect_range(scan, "c");
    assert_eq!(out.len(), 2);
    assert_eq!(out[0].as_ref().unwrap().get_key(), "a");
    assert_eq!(out[1].as_ref().unwrap().get_key(), "b");
}

#[test]
fn range_bound_between_keys() {
    let scan = vec![
        scanned(b"aa", Value::Integer(1)),
        scanned(b"ab", Value::Integer(2)),
        scanned(b"b", Value::Integer(3)),
    ];
    let out = collect_range(scan, "ab");
    assert_eq!(out.len(), 1);
    assert_eq!(out[0].as_ref().unwrap().get_key(), "aa");
}

#[test]
fn empty_upper_bound_keeps_everything() {
    let scan = vec![scanned(b"x", Value::Integer(1)), scanned(b"y", Value::Integer(2))];
    assert_eq!(collect_range(scan, "").len(), 2);
}

#[test]
fn invalid_key_inside_range_is_an_entry_error() {
    let scan = vec![
        scanned(b"b", Value::Integer(1)),
        scanned(&[0xc0], Value::Integer(2)),
        scanned(&[0xff], Value::Integer(3)),
    ];
    let out = collect_range(scan, "\u{10FFFF}");
    assert_eq!(out.len(), 2);
    assert_eq!(out[0].as_ref().unwrap().get_key(), "b");
    assert!(matches!(out[1], Err(KeyValueError::InvalidKey)));
}

#[test]
fn invalid_key_past_bound_ends_range() {
    let scan = vec![scanned(&[0xff, 0xfe], Value::Integer(1)), scanned(b"z", Value::Integer(2))];
    assert_eq!(collect_range(scan, "c").len(), 0);
}

#[test]
fn empty_range_from_above_bound() {
    let scan = vec![scanned(&[0xff], Value::Integer(1))];
    let mut en = enumerate_result(Ok(scan), "a").ok().unwrap();
    assert_eq!(en.has_more_elements(), Ok(false));
    assert!(matches!(en.get_next(), Err(KeyValueError::Exhausted)));
}

#[test]
fn keys_before_cuts_at_bound() {
    let keys = vec![b"a".to_vec(), b"b".to_vec(), vec![0xff], b"c".to_vec()];
    assert_eq!(keys_before(keys.clone(), "b"), vec![b"a".to_vec()]);
    assert_eq!(keys_before(keys.clone(), "").len(), 4);
    assert_eq!(keys_before(keys, "a").len(), 0);
}

#[test]
fn entry_errors_surface_in_place() {
    let scan = vec![
        scanned(b"a", Value::Integer(1)),
        Err(KeyValueError::IoFailure),
        Ok(ScannedPair { key: b"c".to_vec(), value: Err(KeyValueError::UnexpectedValue) }),
        scanned(b"d", Value::Integer(4)),
    ];
    let mut en = KeyValueEnumerator::new(collect_range(scan, ""));
    assert!(en.get_next().is_ok());
    assert!(matches!(en.get_next(), Err(KeyValueError::IoFailure)));
    assert!(matches!(en.get_next(), Err(KeyValueError::UnexpectedValue)));
    let last = en.get_next().unwrap();
    assert_eq!(last.get_key(), "d");
    assert!(matches!(en.get_next(), Err(KeyValueError::Exhausted)));
}

#[test]
fn multibyte_keys_decode() {
    let scan = vec![scanned("é".as_bytes(), Value::Text("v".to_string()))];
    let out = collect_range(scan, "");
    let pair = out[0].as_ref().unwrap();
    assert_eq!(pair.get_key(), "é");
    assert!(matches!(pair.get_value(), Value::Text(s) if s == "v"));
}

#[test]
fn pair_from_parts_prefers_key_error() {
    let r: PairResult = pair_from_parts(None, Err(KeyValueError::UnexpectedValue));
    assert!(matches!(r, Err(KeyValueError::InvalidKey)));
    let r = pair_from_parts(Some("k".to_string()), Err(KeyValueError::UnexpectedValue));
    assert!(matches!(r, Err(KeyValueError::UnexpectedValue)));
    let r = pair_from_parts(Some("k".to_string()), Ok(Value::Double(7)));
    let p = r.unwrap();
    assert_eq!(p.get_key(), "k");
    assert!(matches!(p.get_value(), Value::Double(7)));
}

#[test]
fn key_value_pair_getters() {
    let p = KeyValuePair::new("key".to_string(), Value::Bytes(vec![1, 2]));
    assert_eq!(p.get_key(), "key");
    assert!(matches!(p.get_value(), Value::Bytes(b) if b == &vec![1u8, 2]));
}
