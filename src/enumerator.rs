use vstd::prelude::*;
use vstd::string::StringSliceAdditionalSpecFns;
use vstd::utf8::{decode_utf8, valid_utf8};
use crate::error::KeyValueError;
use crate::value::Value;

verus! {

/// A key and its value, as an enumerator hands them out.
pub struct KeyValuePair {
    key: String,
    value: Value,
}

/// One entry of an enumerator: a pair, or the error met at that position.
pub type PairResult = Result<KeyValuePair, KeyValueError>;

impl KeyValuePair {
    pub closed spec fn key_view(&self) -> Seq<char> {
        self.key@
    }

    pub closed spec fn value_view(&self) -> Value {
        self.value
    }

    pub fn new(key: String, value: Value) -> (r: KeyValuePair)
        ensures
            r.key_view() == key@,
            r.value_view() == value,
    {
        KeyValuePair { key, value }
    }

    pub fn get_key(&self) -> (r: &str)
        ensures
            r@ == self.key_view(),
    {
        self.key.as_str()
    }

    pub fn get_value(&self) -> (r: &Value)
        ensures
            *r == self.value_view(),
    {
        &self.value
    }
}

/// A key/value pair as the engine's range scan produced it: raw key bytes,
/// and the value or the reason it could not be decoded.
pub struct ScannedPair {
    pub key: Vec<u8>,
    pub value: Result<Value, KeyValueError>,
}

/// One step of a range scan: a pair, or an error the engine reported there.
pub type ScanItem = Result<ScannedPair, KeyValueError>;

/// Strict lexicographic order on byte strings, comparing from position `i` on.
pub open spec fn bytes_lt_from(a: Seq<u8>, b: Seq<u8>, i: int) -> bool
    decreases a.len() - i,
{
    if i < 0 || i >= b.len() {
        false
    } else if i >= a.len() {
        true
    } else if a[i] != b[i] {
        a[i] < b[i]
    } else {
        bytes_lt_from(a, b, i + 1)
    }
}

/// `a` sorts strictly before `b`, byte by byte (the order of `str`).
pub open spec fn bytes_lt(a: Seq<u8>, b: Seq<u8>) -> bool {
    bytes_lt_from(a, b, 0)
}

/// Whether `a` sorts strictly before `b`.
pub fn bytes_less(a: &[u8], b: &[u8]) -> (r: bool)
    ensures
        r == bytes_lt(a@, b@),
{
    let mut i: usize = 0;
    while i < a.len() && i < b.len() && a[i] == b[i]
        invariant
            i <= a@.len(),
            i <= b@.len(),
            bytes_lt(a@, b@) == bytes_lt_from(a@, b@, i as int),
        decreases a@.len() - i,
    {
        i = i + 1;
    }
    if i >= b.len() {
        false
    } else if i >= a.len() {
        true
    } else {
        a[i] < b[i]
    }
}

/// Relies on `String::from_utf8`: it succeeds exactly on valid UTF-8, and
/// then holds the characters that the bytes encode.
#[verifier::external_body]
fn utf8_string(bytes: Vec<u8>) -> (r: Option<String>)
    ensures
        r is Some <==> valid_utf8(bytes@),
        r matches Some(s) ==> s@ == decode_utf8(bytes@),
{
    String::from_utf8(bytes).ok()
}

/// `key` lies at or past the upper bound `to` of a half-open range; an
/// empty `to` is no bound.
pub open spec fn past_bound(key: Seq<u8>, to: Seq<u8>) -> bool {
    to.len() > 0 && !bytes_lt(key, to)
}

/// The scan stops before `item`: its key lies at or past the upper bound,
/// whether or not the key is valid text.
pub open spec fn stops_at(item: ScanItem, to: Seq<u8>) -> bool {
    item matches Ok(p) && past_bound(p.key@, to)
}

/// The enumerator entry for a decoded key (`None` if the key was not text)
/// and a value.
pub open spec fn pair_spec(key: Option<Seq<char>>, value: Result<Value, KeyValueError>, r: PairResult) -> bool {
    match key {
        None => r == Err::<KeyValuePair, KeyValueError>(KeyValueError::InvalidKey),
        Some(k) => match value {
            Err(e) => r == Err::<KeyValuePair, KeyValueError>(e),
            Ok(v) => r is Ok && r->Ok_0.key_view() == k && r->Ok_0.value_view() == v,
        },
    }
}

/// `r` is the enumerator entry for the scanned `item`.
pub open spec fn entry_spec(item: ScanItem, r: PairResult) -> bool {
    match item {
        Err(e) => r == Err::<KeyValuePair, KeyValueError>(e),
        Ok(p) => pair_spec(
            if valid_utf8(p.key@) { Some(decode_utf8(p.key@)) } else { None },
            p.value,
            r,
        ),
    }
}

/// Builds one enumerator entry from a decoded key and a value: a key that
/// is not text fails first, then a value that could not be decoded.
pub fn pair_from_parts(key: Option<String>, value: Result<Value, KeyValueError>) -> (r: PairResult)
    ensures
        pair_spec(
            match key {
                Some(k) => Some(k@),
                None => None,
            },
            value,
            r,
        ),
{
    match key {
        None => Err(KeyValueError::InvalidKey),
        Some(k) => match value {
            Err(e) => Err(e),
            Ok(v) => Ok(KeyValuePair::new(k, v)),
        },
    }
}

/// Turns a range scan, in the engine's key order, into enumerator entries.
///
/// The scan is cut before the first pair whose key does not sort before
/// `to_key`; an empty `to_key` leaves it unbounded. Every entry
/// before that point is kept, errors included, each in its place.
pub fn collect_range(scan: Vec<ScanItem>, to_key: &str) -> (r: Vec<PairResult>)
    ensures
        r@.len() <= scan@.len(),
        forall|j: int|
            0 <= j < r@.len() ==> !stops_at(#[trigger] scan@[j], to_key.spec_bytes())
                && entry_spec(scan@[j], r@[j]),
        r@.len() < scan@.len() ==> stops_at(scan@[r@.len() as int], to_key.spec_bytes()),
{
    let ghost orig = scan@;
    let to = to_key.as_bytes();
    let mut rest = scan;
    let mut out: Vec<PairResult> = Vec::new();
    let mut stopped = false;
    while !stopped && rest.len() > 0
        invariant
            to@ == to_key.spec_bytes(),
            !stopped ==> out@.len() + rest@.len() == orig.len(),
            !stopped ==> rest@ == orig.subrange(out@.len() as int, orig.len() as int),
            out@.len() <= orig.len(),
            forall|j: int|
                0 <= j < out@.len() ==> !stops_at(#[trigger] orig[j], to@)
                    && entry_spec(orig[j], out@[j]),
            stopped ==> out@.len() < orig.len() && stops_at(orig[out@.len() as int], to@),
        decreases rest@.len(),
    {
        let item = rest.remove(0);
        assert(item == orig[out@.len() as int]);
        match item {
            Err(e) => {
                out.push(Err(e));
            },
            Ok(p) => {
                let past = to.len() > 0 && !bytes_less(p.key.as_slice(), to);
                if past {
                    stopped = true;
                } else {
                    let ScannedPair { key, value } = p;
                    let decoded = utf8_string(key);
                    out.push(pair_from_parts(decoded, value));
                }
            },
        }
    }
    out
}

/// Of the keys of a scan that starts at the lower bound, in the engine's
/// order, those before the first key at or past `to_key`; an empty `to_key`
/// keeps them all.
pub fn keys_before(keys: Vec<Vec<u8>>, to_key: &str) -> (r: Vec<Vec<u8>>)
    ensures
        r@.len() <= keys@.len(),
        forall|j: int|
            0 <= j < r@.len() ==> !past_bound(#[trigger] keys@[j]@, to_key.spec_bytes())
                && r@[j]@ == keys@[j]@,
        r@.len() < keys@.len() ==> past_bound(keys@[r@.len() as int]@, to_key.spec_bytes()),
{
    let ghost orig = keys@;
    let to = to_key.as_bytes();
    let mut rest = keys;
    let mut out: Vec<Vec<u8>> = Vec::new();
    let mut stopped = false;
    while !stopped && rest.len() > 0
        invariant
            to@ == to_key.spec_bytes(),
            !stopped ==> out@.len() + rest@.len() == orig.len(),
            !stopped ==> rest@ == orig.subrange(out@.len() as int, orig.len() as int),
            out@.len() <= orig.len(),
            forall|j: int|
                0 <= j < out@.len() ==> !past_bound(#[trigger] orig[j]@, to@)
                    && out@[j]@ == orig[j]@,
            stopped ==> out@.len() < orig.len() && past_bound(orig[out@.len() as int]@, to@),
        decreases rest@.len(),
    {
        let key = rest.remove(0);
        assert(key == orig[out@.len() as int]);
        if to.len() > 0 && !bytes_less(key.as_slice(), to) {
            stopped = true;
        } else {
            out.push(key);
        }
    }
    out
}

/// A one-pass cursor over the entries of a range query, in key order.
pub struct KeyValueEnumerator {
    entries: Vec<PairResult>,
}

/// One call of `get_next` on the entries left: what it returns, and what is
/// left after it.
pub open spec fn step(s: Seq<PairResult>) -> (PairResult, Seq<PairResult>) {
    if s.len() == 0 {
        (Err(KeyValueError::Exhausted), s)
    } else {
        (s[0], s.drop_first())
    }
}

/// `n` calls of `get_next`: what they returned, in order, and what is left.
pub open spec fn drain(s: Seq<PairResult>, n: nat) -> (Seq<PairResult>, Seq<PairResult>)
    decreases n,
{
    if n == 0 {
        (Seq::empty(), s)
    } else {
        let prev = drain(s, (n - 1) as nat);
        let next = step(prev.1);
        (prev.0.push(next.0), next.1)
    }
}

impl KeyValueEnumerator {
    /// The entries not handed out yet, in order.
    pub closed spec fn remaining(&self) -> Seq<PairResult> {
        self.entries@
    }

    pub fn new(pairs: Vec<PairResult>) -> (r: KeyValueEnumerator)
        ensures
            r.remaining() == pairs@,
    {
        KeyValueEnumerator { entries: pairs }
    }

    pub fn has_more_elements(&self) -> (r: Result<bool, KeyValueError>)
        ensures
            r == Ok::<bool, KeyValueError>(self.remaining().len() > 0),
    {
        Ok(self.entries.len() > 0)
    }

    /// Hands out the next entry and moves past it, also where the entry is
    /// an error; with no entry left, reports `Exhausted`.
    pub fn get_next(&mut self) -> (r: PairResult)
        ensures
            (r, final(self).remaining()) == step(old(self).remaining()),
    {
        if self.entries.len() == 0 {
            Err(KeyValueError::Exhausted)
        } else {
            self.entries.remove(0)
        }
    }
}

proof fn lemma_drain_prefix(s: Seq<PairResult>, n: nat)
    requires
        n <= s.len(),
    ensures
        drain(s, n).0 == s.take(n as int),
        drain(s, n).1 == s.skip(n as int),
    decreases n,
{
    if n > 0 {
        lemma_drain_prefix(s, (n - 1) as nat);
        assert(s.take(n as int) =~= s.take(n - 1).push(s[n - 1]));
        assert(s.skip(n - 1).drop_first() =~= s.skip(n as int));
    } else {
        assert(s.take(0) =~= Seq::<PairResult>::empty());
        assert(s.skip(0) =~= s);
    }
}

/// Consuming an enumerator hands out each entry exactly once, in order;
/// afterwards nothing is left, `has_more_elements` is false, and the next
/// call reports `Exhausted` rather than repeating an entry.
pub proof fn lemma_drain_exhausts(s: Seq<PairResult>)
    ensures
        drain(s, s.len()).0 == s,
        drain(s, s.len()).1.len() == 0,
        step(drain(s, s.len()).1).0 == Err::<KeyValuePair, KeyValueError>(KeyValueError::Exhausted),
{
    lemma_drain_prefix(s, s.len());
    assert(s.take(s.len() as int) =~= s);
}

} // verus!
