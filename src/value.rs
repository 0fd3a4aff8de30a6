use vstd::prelude::*;

verus! {

/// A value held in the store.
///
/// A floating-point number is held as its IEEE-754 bit pattern: the library
/// stores and returns it without computing on it, so the round trip is exact.
#[derive(Clone, Debug)]
pub enum Value {
    Bool(bool),
    Integer(i64),
    Double(u64),
    Text(String),
    Bytes(Vec<u8>),
}

} // verus!
