use vstd::prelude::*;
use crate::enumerator::{collect_range, entry_spec, stops_at, KeyValueEnumerator, ScanItem};
use crate::error::{engine_error, EngineFault, KeyValueError};
use crate::value::Value;
use vstd::string::StringSliceAdditionalSpecFns;

verus! {

/// One write of a batch: store `value` under `key`, or remove `key` where
/// `value` is `None`.
pub struct WriteOp {
    pub key: String,
    pub value: Option<Value>,
}

/// One operation queued on a database, with its inputs.
pub enum Task {
    Get { key: String, default_value: Option<Value> },
    Has { key: String },
    Put { key: String, value: Value },
    WriteMany { batch: Vec<WriteOp> },
    Delete { key: String },
    DeleteRange { from_key: String, to_key: String },
    Clear,
    Enumerate { from_key: String, to_key: String },
}

/// The value a `Get` reports: the stored one, else the default if any.
pub open spec fn get_spec(found: Option<Value>, default_value: Option<Value>) -> Option<Value> {
    match found {
        Some(v) => Some(v),
        None => default_value,
    }
}

/// What a `Get` reports once the engine has looked up the key: the stored
/// value, or the default where the key is absent.
pub fn get_result(
    found: Result<Option<Value>, EngineFault>,
    default_value: Option<Value>,
) -> (r: Result<Option<Value>, KeyValueError>)
    ensures
        r == match found {
            Ok(f) => Ok(get_spec(f, default_value)),
            Err(e) => Err::<Option<Value>, KeyValueError>(engine_error(e)),
        },
{
    match found {
        Ok(Some(v)) => Ok(Some(v)),
        Ok(None) => Ok(default_value),
        Err(e) => Err(KeyValueError::from_engine(e)),
    }
}

/// What a `Has` reports once the engine has looked up the key.
pub fn has_result(found: Result<bool, EngineFault>) -> (r: Result<bool, KeyValueError>)
    ensures
        r == match found {
            Ok(b) => Ok(b),
            Err(e) => Err::<bool, KeyValueError>(engine_error(e)),
        },
{
    match found {
        Ok(b) => Ok(b),
        Err(e) => Err(KeyValueError::from_engine(e)),
    }
}

/// What a write (`Put`, `WriteMany`, `Clear`) reports once the engine has
/// applied and committed it.
pub fn write_result(outcome: Result<(), EngineFault>) -> (r: Result<(), KeyValueError>)
    ensures
        r == match outcome {
            Ok(()) => Ok(()),
            Err(e) => Err::<(), KeyValueError>(engine_error(e)),
        },
{
    match outcome {
        Ok(()) => Ok(()),
        Err(e) => Err(KeyValueError::from_engine(e)),
    }
}

/// What the removal of one key reports: a key that was not there is no
/// error, as removing it leaves the store as asked.
pub fn delete_result(outcome: Result<(), EngineFault>) -> (r: Result<(), KeyValueError>)
    ensures
        r == match outcome {
            Ok(()) => Ok(()),
            Err(EngineFault::NotFound) => Ok(()),
            Err(e) => Err::<(), KeyValueError>(engine_error(e)),
        },
{
    match outcome {
        Ok(()) => Ok(()),
        Err(EngineFault::NotFound) => Ok(()),
        Err(e) => Err(KeyValueError::from_engine(e)),
    }
}

/// What an `Enumerate` reports once the engine has scanned from the lower
/// bound on: an enumerator over the scan cut at `to_key`.
pub fn enumerate_result(
    scan: Result<Vec<ScanItem>, EngineFault>,
    to_key: &str,
) -> (r: Result<KeyValueEnumerator, KeyValueError>)
    ensures
        scan is Err ==> r == Err::<KeyValueEnumerator, KeyValueError>(
            engine_error(scan->Err_0),
        ),
        scan matches Ok(items) ==> r matches Ok(en) && {
            let out = en.remaining();
            &&& out.len() <= items@.len()
            &&& forall|j: int|
                0 <= j < out.len() ==> !stops_at(#[trigger] items@[j], to_key.spec_bytes())
                    && entry_spec(items@[j], out[j])
            &&& out.len() < items@.len() ==> stops_at(
                items@[out.len() as int],
                to_key.spec_bytes(),
            )
        },
{
    match scan {
        Ok(items) => Ok(KeyValueEnumerator::new(collect_range(items, to_key))),
        Err(e) => Err(KeyValueError::from_engine(e)),
    }
}

} // verus!
