use vstd::prelude::*;
use crate::error::KeyValueError;

verus! {

/// What opening an environment does when its files on disk are corrupted.
#[derive(PartialEq, Eq, Structural, Clone, Copy, Debug)]
pub enum RecoveryStrategy {
    /// Fail with `Corrupt`, leaving the files as they are.
    Error,
    /// Remove the corrupted files and start from an empty environment.
    Discard,
    /// Move the corrupted files aside and start from an empty environment.
    Rename,
}

/// The code callers use for `RecoveryStrategy::Error`.
pub const STRATEGY_ERROR: u8 = 0;

/// The code callers use for `RecoveryStrategy::Discard`.
pub const STRATEGY_DISCARD: u8 = 1;

/// The code callers use for `RecoveryStrategy::Rename`.
pub const STRATEGY_RENAME: u8 = 2;

/// The strategy a caller's code names, if any.
pub open spec fn strategy_of(code: u8) -> Option<RecoveryStrategy> {
    if code == STRATEGY_ERROR {
        Some(RecoveryStrategy::Error)
    } else if code == STRATEGY_DISCARD {
        Some(RecoveryStrategy::Discard)
    } else if code == STRATEGY_RENAME {
        Some(RecoveryStrategy::Rename)
    } else {
        None
    }
}

impl RecoveryStrategy {
    /// The strategy a caller's code names; an unknown code is refused.
    pub fn from_code(code: u8) -> (r: Result<RecoveryStrategy, KeyValueError>)
        ensures
            r == match strategy_of(code) {
                Some(s) => Ok(s),
                None => Err::<RecoveryStrategy, KeyValueError>(KeyValueError::UnknownStrategy),
            },
    {
        if code == STRATEGY_ERROR {
            Ok(RecoveryStrategy::Error)
        } else if code == STRATEGY_DISCARD {
            Ok(RecoveryStrategy::Discard)
        } else if code == STRATEGY_RENAME {
            Ok(RecoveryStrategy::Rename)
        } else {
            Err(KeyValueError::UnknownStrategy)
        }
    }
}

/// A request to get or open the environment at `path` and the store `name`
/// in it. The strategy applies only where the environment is not open yet.
pub struct OpenRequest {
    pub path: String,
    pub name: String,
    pub strategy: RecoveryStrategy,
}

impl OpenRequest {
    /// The store to open in the environment: `None`, the default store, for
    /// an empty name.
    pub fn store_name(&self) -> (r: Option<&str>)
        ensures
            self.name@.len() == 0 ==> r is None,
            self.name@.len() > 0 ==> (r matches Some(n) && n@ == self.name@),
    {
        let n = self.name.as_str();
        if n.is_empty() {
            None
        } else {
            Some(n)
        }
    }
}

/// The entry point: it turns a caller's request to open a database into an
/// `OpenRequest` for the environment registry.
pub struct KeyValueService {}

impl KeyValueService {
    pub fn new() -> (r: KeyValueService) {
        KeyValueService {}
    }

    /// Gets or opens a database; a corrupted environment is an error.
    pub fn get_or_create(&self, path: String, name: String) -> (r: OpenRequest)
        ensures
            r.path == path,
            r.name == name,
            r.strategy == RecoveryStrategy::Error,
    {
        OpenRequest { path, name, strategy: RecoveryStrategy::Error }
    }

    /// Gets or opens a database with the recovery strategy that `strategy`
    /// names; an unknown code is refused.
    pub fn get_or_create_with_options(&self, path: String, name: String, strategy: u8) -> (r:
        Result<OpenRequest, KeyValueError>)
        ensures
            strategy_of(strategy) is None ==> r == Err::<OpenRequest, KeyValueError>(
                KeyValueError::UnknownStrategy,
            ),
            strategy_of(strategy) matches Some(s) ==> r matches Ok(req) && req.path == path
                && req.name == name && req.strategy == s,
    {
        let s = RecoveryStrategy::from_code(strategy)?;
        Ok(OpenRequest { path, name, strategy: s })
    }

    /// Not offered by this layer.
    pub fn create_importer(&self, importer_type: &str, path: &str) -> (r: Result<(), KeyValueError>)
        ensures
            r == Err::<(), KeyValueError>(KeyValueError::NotImplemented),
    {
        Err(KeyValueError::NotImplemented)
    }
}

} // verus!
