use vstd::prelude::*;
use crate::dispatch::SerialQueue;
use crate::error::KeyValueError;
use crate::task::{Task, WriteOp};
use crate::value::Value;

verus! {

/// One pair of a `write_many` request as the caller gave it: the key, and
/// the value (`None` to remove the key), or the reason the value could not
/// be decoded.
pub struct PairInput {
    pub key: String,
    pub value: Result<Option<Value>, KeyValueError>,
}

/// Why a `write_many` entry cannot be written, if it cannot: a missing pair,
/// an empty key, or a value that could not be decoded.
pub open spec fn entry_error(e: Option<PairInput>) -> Option<KeyValueError> {
    match e {
        None => Some(KeyValueError::UnexpectedValue),
        Some(p) => if p.key@.len() == 0 {
            Some(KeyValueError::InvalidKey)
        } else {
            match p.value {
                Err(err) => Some(err),
                Ok(_) => None,
            }
        },
    }
}

/// The error of the first entry of a batch that cannot be written, if any.
pub open spec fn batch_error(s: Seq<Option<PairInput>>) -> Option<KeyValueError>
    decreases s.len(),
{
    if s.len() == 0 {
        None
    } else {
        match entry_error(s[0]) {
            Some(e) => Some(e),
            None => batch_error(s.drop_first()),
        }
    }
}

/// `op` is the write that the valid entry `e` asks for.
pub open spec fn write_op_of(e: Option<PairInput>, op: WriteOp) -> bool {
    e matches Some(p) && p.value matches Ok(v) && op.key == p.key && op.value == v
}

/// A batch with one entry that cannot be written has an error as a whole,
/// wherever that entry stands among valid ones.
pub proof fn lemma_one_invalid_spoils_batch(s: Seq<Option<PairInput>>, j: int)
    requires
        0 <= j < s.len(),
        entry_error(s[j]) is Some,
    ensures
        batch_error(s) is Some,
    decreases s.len(),
{
    if j > 0 && entry_error(s[0]) is None {
        lemma_one_invalid_spoils_batch(s.drop_first(), j - 1);
    }
}

/// A database as its callers use it: requests are validated here and queued
/// in order on the database's own serial queue.
pub struct KeyValueDatabase {
    queue: SerialQueue<Task>,
}

impl KeyValueDatabase {
    /// The tasks queued and not yet started, oldest first.
    pub closed spec fn pending(&self) -> Seq<Task> {
        self.queue.pending()
    }

    /// Whether a task of this database is running.
    pub closed spec fn is_busy(&self) -> bool {
        self.queue.is_busy()
    }

    pub fn new() -> (r: KeyValueDatabase)
        ensures
            r.pending() == Seq::<Task>::empty(),
            !r.is_busy(),
    {
        KeyValueDatabase { queue: SerialQueue::new() }
    }

    /// Not offered by this layer.
    pub fn is_empty(&self) -> (r: Result<(), KeyValueError>)
        ensures
            r == Err::<(), KeyValueError>(KeyValueError::NotImplemented),
    {
        Err(KeyValueError::NotImplemented)
    }

    /// Not offered by this layer.
    pub fn count(&self) -> (r: Result<(), KeyValueError>)
        ensures
            r == Err::<(), KeyValueError>(KeyValueError::NotImplemented),
    {
        Err(KeyValueError::NotImplemented)
    }

    /// Not offered by this layer.
    pub fn size(&self) -> (r: Result<(), KeyValueError>)
        ensures
            r == Err::<(), KeyValueError>(KeyValueError::NotImplemented),
    {
        Err(KeyValueError::NotImplemented)
    }

    /// Not offered by this layer.
    pub fn close(&self) -> (r: Result<(), KeyValueError>)
        ensures
            r == Err::<(), KeyValueError>(KeyValueError::NotImplemented),
    {
        Err(KeyValueError::NotImplemented)
    }

    /// Queues the storing of `value` under `key`. A missing value and an
    /// empty key are refused, and then nothing is queued.
    pub fn put(&mut self, key: String, value: Option<Value>) -> (r: Result<(), KeyValueError>)
        ensures
            value is None ==> r == Err::<(), KeyValueError>(KeyValueError::UnexpectedValue),
            value is Some && key@.len() == 0 ==> r == Err::<(), KeyValueError>(
                KeyValueError::InvalidKey,
            ),
            r is Err ==> final(self).pending() == old(self).pending(),
            value is Some && key@.len() > 0 ==> r is Ok && final(self).pending()
                == old(self).pending().push((Task::Put { key, value: value->Some_0 })),
            final(self).is_busy() == old(self).is_busy(),
    {
        match value {
            None => Err(KeyValueError::UnexpectedValue),
            Some(v) => {
                if key.as_str().is_empty() {
                    Err(KeyValueError::InvalidKey)
                } else {
                    self.queue.submit(Task::Put { key, value: v });
                    Ok(())
                }
            },
        }
    }

    /// Queues a batch of writes to be applied in one transaction. If any
    /// entry cannot be written, the first such entry's error is returned and
    /// nothing is queued, so no pair of the batch is written.
    pub fn write_many(&mut self, pairs: Vec<Option<PairInput>>) -> (r: Result<(), KeyValueError>)
        ensures
            batch_error(pairs@) matches Some(e) ==> r == Err::<(), KeyValueError>(e)
                && final(self).pending() == old(self).pending(),
            batch_error(pairs@) is None ==> {
                &&& r is Ok
                &&& final(self).pending().len() == old(self).pending().len() + 1
                &&& final(self).pending().drop_last() == old(self).pending()
                &&& final(self).pending().last() matches Task::WriteMany { batch }
                &&& batch@.len() == pairs@.len()
                &&& forall|j: int|
                    0 <= j < pairs@.len() ==> write_op_of(#[trigger] pairs@[j], batch@[j])
            },
            final(self).is_busy() == old(self).is_busy(),
    {
        let ghost orig = pairs@;
        let mut rest = pairs;
        let mut batch: Vec<WriteOp> = Vec::new();
        while rest.len() > 0
            invariant
                orig == pairs@,
                self.pending() == old(self).pending(),
                self.is_busy() == old(self).is_busy(),
                batch@.len() + rest@.len() == orig.len(),
                rest@ == orig.skip(batch@.len() as int),
                batch_error(orig) == batch_error(rest@),
                forall|j: int| 0 <= j < batch@.len() ==> write_op_of(#[trigger] orig[j], batch@[j]),
            decreases rest@.len(),
        {
            let k = batch.len();
            assert(rest@.drop_first() =~= orig.skip(k + 1));
            assert(batch_error(rest@) == match entry_error(rest@[0]) {
                Some(e) => Some(e),
                None => batch_error(rest@.drop_first()),
            });
            let entry = rest.remove(0);
            assert(entry == orig[k as int]);
            match entry {
                None => {
                    return Err(KeyValueError::UnexpectedValue);
                },
                Some(p) => {
                    let PairInput { key, value } = p;
                    if key.as_str().is_empty() {
                        return Err(KeyValueError::InvalidKey);
                    }
                    match value {
                        Err(e) => {
                            return Err(e);
                        },
                        Ok(v) => {
                            batch.push(WriteOp { key, value: v });
                        },
                    }
                },
            }
        }
        self.queue.submit(Task::WriteMany { batch });
        Ok(())
    }

    /// Queues a lookup of `key`, reporting `default_value` where it is absent.
    pub fn get(&mut self, key: String, default_value: Option<Value>)
        ensures
            final(self).pending() == old(self).pending().push((Task::Get { key, default_value })),
            final(self).is_busy() == old(self).is_busy(),
    {
        self.queue.submit(Task::Get { key, default_value });
    }

    /// Queues a lookup of whether `key` is present.
    pub fn has(&mut self, key: String)
        ensures
            final(self).pending() == old(self).pending().push((Task::Has { key })),
            final(self).is_busy() == old(self).is_busy(),
    {
        self.queue.submit(Task::Has { key });
    }

    /// Queues the removal of `key`.
    pub fn delete(&mut self, key: String)
        ensures
            final(self).pending() == old(self).pending().push((Task::Delete { key })),
            final(self).is_busy() == old(self).is_busy(),
    {
        self.queue.submit(Task::Delete { key });
    }

    /// Queues the removal of every key in `[from_key, to_key)`; an empty
    /// bound leaves that side open.
    pub fn delete_range(&mut self, from_key: String, to_key: String)
        ensures
            final(self).pending() == old(self).pending().push((Task::DeleteRange { from_key, to_key })),
            final(self).is_busy() == old(self).is_busy(),
    {
        self.queue.submit(Task::DeleteRange { from_key, to_key });
    }

    /// Queues the removal of every pair of the store.
    pub fn clear(&mut self)
        ensures
            final(self).pending() == old(self).pending().push(Task::Clear),
            final(self).is_busy() == old(self).is_busy(),
    {
        self.queue.submit(Task::Clear);
    }

    /// Queues a scan of the keys in `[from_key, to_key)`; an empty bound
    /// leaves that side open.
    pub fn enumerate(&mut self, from_key: String, to_key: String)
        ensures
            final(self).pending() == old(self).pending().push((Task::Enumerate { from_key, to_key })),
            final(self).is_busy() == old(self).is_busy(),
    {
        self.queue.submit(Task::Enumerate { from_key, to_key });
    }

    /// Hands out the oldest queued task, unless a task of this database is
    /// still running or none is queued.
    pub fn start_next(&mut self) -> (r: Option<Task>)
        ensures
            !old(self).is_busy() && old(self).pending().len() > 0 ==> {
                &&& r == Some(old(self).pending()[0])
                &&& final(self).pending() == old(self).pending().drop_first()
                &&& final(self).is_busy()
            },
            old(self).is_busy() || old(self).pending().len() == 0 ==> {
                &&& r is None
                &&& final(self).pending() == old(self).pending()
                &&& final(self).is_busy() == old(self).is_busy()
            },
    {
        self.queue.start_next()
    }

    /// Marks the running task as completed.
    pub fn finish(&mut self)
        ensures
            final(self).pending() == old(self).pending(),
            !final(self).is_busy(),
    {
        self.queue.finish();
    }
}

} // verus!
