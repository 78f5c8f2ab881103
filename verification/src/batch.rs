use vstd::prelude::*;

use vstd::slice::slice_to_vec;

use crate::errors::DbError;
use crate::model::Op;

verus! {

/// One pending mutation, as a batch accumulates it.
pub enum BatchOp {
    /// Associate the value with the key.
    Put(Vec<u8>, Vec<u8>),
    /// Remove the key.
    Delete(Vec<u8>),
}

impl View for BatchOp {
    type V = Op;

    open spec fn view(&self) -> Op {
        match self {
            BatchOp::Put(k, v) => Op::Put(k@, v@),
            BatchOp::Delete(k) => Op::Delete(k@),
        }
    }
}

/// An ordered, single-use log of pending mutations.
///
/// A batch accumulates `put` and `delete` entries purely in memory, in call
/// order, without touching any storage engine. Committing hands the whole log
/// over exactly once (`take_ops`); from then on the batch is permanently
/// consumed and every further operation fails with `AlreadyUsed`.
pub struct WriteBatch {
    ops: Option<Vec<BatchOp>>,
}

impl WriteBatch {
    /// The pending mutations, oldest first, or `None` once the batch has been
    /// consumed.
    pub closed spec fn pending(&self) -> Option<Seq<Op>> {
        match self.ops {
            Some(v) => Some(v@.map(|i: int, op: BatchOp| op@)),
            None => None,
        }
    }

    /// Creates an empty, unconsumed batch.
    pub fn new() -> (r: WriteBatch)
        ensures
            r.pending() == Some(Seq::<Op>::empty()),
    {
        let r = WriteBatch { ops: Some(Vec::new()) };
        proof {
            assert(r.pending().unwrap() =~= Seq::<Op>::empty());
        }
        r
    }

    /// Appends a put entry, unless the batch has already been consumed.
    pub fn put(&mut self, key: &[u8], value: &[u8]) -> (r: Result<(), DbError>)
        ensures
            old(self).pending() matches Some(ops) ==> r is Ok
                && final(self).pending() == Some(ops.push(Op::Put(key@, value@))),
            old(self).pending() is None ==> (r matches Err(e) && e is AlreadyUsed
                && final(self).pending() is None),
    {
        match &mut self.ops {
            Some(v) => {
                v.push(BatchOp::Put(slice_to_vec(key), slice_to_vec(value)));
                proof {
                    assert(self.pending().unwrap() =~= old(self).pending().unwrap().push(
                        Op::Put(key@, value@)));
                }
                Ok(())
            },
            None => Err(DbError::AlreadyUsed),
        }
    }

    /// Appends a delete entry, unless the batch has already been consumed.
    pub fn delete(&mut self, key: &[u8]) -> (r: Result<(), DbError>)
        ensures
            old(self).pending() matches Some(ops) ==> r is Ok
                && final(self).pending() == Some(ops.push(Op::Delete(key@))),
            old(self).pending() is None ==> (r matches Err(e) && e is AlreadyUsed
                && final(self).pending() is None),
    {
        match &mut self.ops {
            Some(v) => {
                v.push(BatchOp::Delete(slice_to_vec(key)));
                proof {
                    assert(self.pending().unwrap() =~= old(self).pending().unwrap().push(
                        Op::Delete(key@)));
                }
                Ok(())
            },
            None => Err(DbError::AlreadyUsed),
        }
    }

    /// Consumes the batch, handing out its whole log for one atomic commit.
    ///
    /// Succeeds exactly once: the first call returns every accumulated
    /// mutation in order and marks the batch consumed; every later call fails
    /// with `AlreadyUsed` and hands nothing out.
    pub fn take_ops(&mut self) -> (r: Result<Vec<BatchOp>, DbError>)
        ensures
            old(self).pending() matches Some(ops) ==> (r matches Ok(v)
                && v@.len() == ops.len()
                && v@.map(|i: int, op: BatchOp| op@) == ops),
            old(self).pending() is None ==> (r matches Err(e) && e is AlreadyUsed),
            final(self).pending() is None,
    {
        let taken = self.ops.take();
        match taken {
            Some(v) => Ok(v),
            None => Err(DbError::AlreadyUsed),
        }
    }
}

} // verus!
