use kvstore::error::{EngineFault, KeyValueError};
use kvstore::service::{KeyValueService, RecoveryStrategy};
use kvstore::task::{delete_result, enumerate_result, get_result, has_result, write_result};
use kvstore::value::Value;

#[test]
fn strategy_codes() {
    assert_eq!(RecoveryStrategy::from_code(0), Ok(RecoveryStrategy::Error));
    assert_eq!(RecoveryStrategy::from_code(1), Ok(RecoveryStrategy::Discard));
    assert_eq!(RecoveryStrategy::from_code(2), Ok(RecoveryStrategy::Rename));
    assert_eq!(RecoveryStrategy::from_code(3), Err(KeyValueError::UnknownStrategy));
    assert_eq!(RecoveryStrategy::from_code(255), Err(KeyValueError::UnknownStrategy));
}

#[test]
fn get_or_create_uses_error_strategy() {
    let svc = KeyValueService::new();
    let req = svc.get_or_create("/tmp/x".to_string(), "main".to_string());
    assert_eq!(req.path, "/tmp/x");
    assert_eq!(req.name, "main");
    assert_eq!(req.strategy, RecoveryStrategy::Error);
}

#[test]
fn get_or_create_with_options_names_strategy() {
    let svc = KeyValueService::new();
    let req = svc.get_or_create_with_options("/p".to_string(), String::new(), 2).ok().unwrap();
    assert_eq!(req.strategy, RecoveryStrategy::Rename);
    assert_eq!(req.name, "");
    assert!(svc.get_or_create_with_options("/p".to_string(), String::new(), 9).is_err());
}

#[test]
fn create_importer_is_not_implemented() {
    let svc = KeyValueService::new();
    assert_eq!(svc.create_importer("lmdb", "/p"), Err(KeyValueError::NotImplemented));
}

#[test]
fn get_falls_back_to_default() {
    let r = get_result(Ok(None), Some(Value::Integer(9))).ok().unwrap();
    assert!(matches!(r, Some(Value::Integer(9))));
    let r = get_result(Ok(Some(Value::Integer(1))), Some(Value::Integer(9))).ok().unwrap();
    assert!(matches!(r, Some(Value::Integer(1))));
    let r = get_result(Ok(None), None).ok().unwrap();
    assert!(r.is_none());
    assert!(matches!(get_result(Err(EngineFault::Io), None), Err(KeyValueError::IoFailure)));
}

#[test]
fn has_maps_outcome() {
    assert_eq!(has_result(Ok(true)), Ok(true));
    assert_eq!(has_result(Ok(false)), Ok(false));
    assert_eq!(has_result(Err(EngineFault::Other)), Err(KeyValueError::StoreFailure));
}

#[test]
fn deleting_absent_key_succeeds() {
    assert_eq!(delete_result(Err(EngineFault::NotFound)), Ok(()));
    assert_eq!(delete_result(Ok(())), Ok(()));
    assert_eq!(delete_result(Err(EngineFault::Io)), Err(KeyValueError::IoFailure));
}

#[test]
fn write_outcomes() {
    assert_eq!(write_result(Ok(())), Ok(()));
    assert_eq!(write_result(Err(EngineFault::NotFound)), Err(KeyValueError::StoreFailure));
    assert_eq!(write_result(Err(EngineFault::BadSize)), Err(KeyValueError::StoreFailure));
    assert_eq!(write_result(Err(EngineFault::Corrupted)), Err(KeyValueError::Corrupt));
}

#[test]
fn engine_error_kinds() {
    assert_eq!(KeyValueError::from_engine(EngineFault::BadPath), KeyValueError::InvalidPath);
    assert_eq!(KeyValueError::from_store_open(EngineFault::Io), KeyValueError::IoFailure);
    assert_eq!(KeyValueError::from_store_open(EngineFault::Other), KeyValueError::StoreOpenFailure);
}

#[test]
fn enumerate_of_failed_scan_is_an_error() {
    assert!(matches!(enumerate_result(Err(EngineFault::Io), ""), Err(KeyValueError::IoFailure)));
    let mut en = enumerate_result(Ok(Vec::new()), "").ok().unwrap();
    assert_eq!(en.has_more_elements(), Ok(false));
    assert!(matches!(en.get_next(), Err(KeyValueError::Exhausted)));
}

