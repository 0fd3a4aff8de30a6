use vstd::prelude::*;

verus! {

/// The errors a caller of the store can see.
#[derive(PartialEq, Eq, Structural, Clone, Copy, Debug)]
pub enum KeyValueError {
    /// A disk or permission failure in the engine.
    IoFailure,
    /// The environment on disk is corrupted and the recovery strategy was `Error`.
    Corrupt,
    /// An empty key on a write, or a stored key that is not valid UTF-8.
    InvalidKey,
    /// A value that cannot be stored or cannot be decoded, or a missing pair.
    UnexpectedValue,
    /// An operation this layer deliberately does not offer.
    NotImplemented,
    /// `next` was called on an enumerator with no entries left.
    Exhausted,
    /// A recovery strategy code outside the known ones.
    UnknownStrategy,
    /// The engine could not open the environment at the given path.
    InvalidPath,
    /// The named store could not be opened or created.
    StoreOpenFailure,
    /// Any other engine failure.
    StoreFailure,
}

/// What the storage engine reported, sorted into the kinds this layer tells apart.
#[derive(PartialEq, Eq, Structural, Clone, Copy, Debug)]
pub enum EngineFault {
    /// The key of a delete was not present.
    NotFound,
    /// The on-disk structure could not be read.
    Corrupted,
    /// An I/O failure.
    Io,
    /// The environment path does not exist or is not a directory.
    BadPath,
    /// A key, value or store name of a size the engine does not take.
    BadSize,
    /// Anything else.
    Other,
}

pub open spec fn engine_error(f: EngineFault) -> KeyValueError {
    match f {
        EngineFault::NotFound => KeyValueError::StoreFailure,
        EngineFault::Corrupted => KeyValueError::Corrupt,
        EngineFault::Io => KeyValueError::IoFailure,
        EngineFault::BadPath => KeyValueError::InvalidPath,
        EngineFault::BadSize => KeyValueError::StoreFailure,
        EngineFault::Other => KeyValueError::StoreFailure,
    }
}

/// The error a caller sees where the named store could not be opened.
pub open spec fn store_open_error(f: EngineFault) -> KeyValueError {
    match f {
        EngineFault::Io => KeyValueError::IoFailure,
        _ => KeyValueError::StoreOpenFailure,
    }
}

impl KeyValueError {
    /// The error a caller sees for an engine failure.
    pub fn from_engine(f: EngineFault) -> (r: KeyValueError)
        ensures
            r == engine_error(f),
    {
        match f {
            EngineFault::NotFound => KeyValueError::StoreFailure,
            EngineFault::Corrupted => KeyValueError::Corrupt,
            EngineFault::Io => KeyValueError::IoFailure,
            EngineFault::BadPath => KeyValueError::InvalidPath,
            EngineFault::BadSize => KeyValueError::StoreFailure,
            EngineFault::Other => KeyValueError::StoreFailure,
        }
    }

    /// The error a caller sees where the named store could not be opened.
    pub fn from_store_open(f: EngineFault) -> (r: KeyValueError)
        ensures
            r == store_open_error(f),
    {
        match f {
            EngineFault::Io => KeyValueError::IoFailure,
            _ => KeyValueError::StoreOpenFailure,
        }
    }
}

} // verus!
