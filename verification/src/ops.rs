use vstd::prelude::*;

use crate::errors::DbError;
use crate::model::opt_bytes;
use vstd::slice::slice_to_vec;

verus! {

/// Collects the engine's per-key read outcomes into one multi-get result.
///
/// Succeeds only when every key's outcome did: the result then has exactly
/// one entry per key, in the keys' order, `None` exactly where the key was
/// absent. The first per-key failure fails the whole call with the engine's
/// message, and no partial results are returned.
pub fn collect_results(raw: &Vec<Result<Option<Vec<u8>>, String>>) -> (r: Result<
    Vec<Option<Vec<u8>>>,
    DbError,
>)
    ensures
        r is Ok <==> (forall|i: int| 0 <= i < raw@.len() ==> (#[trigger] raw@[i]) is Ok),
        r matches Ok(vs) ==> vs@.len() == raw@.len() && (forall|i: int|
            0 <= i < raw@.len() ==> ((#[trigger] raw@[i]) matches Ok(o) && opt_bytes(vs@[i])
                == opt_bytes(o))),
        r matches Err(e) ==> (e matches DbError::Store(msg) && (exists|i: int|
            0 <= i < raw@.len() && ((#[trigger] raw@[i]) matches Err(m) && m@ == msg@
                && (forall|j: int| 0 <= j < i ==> (#[trigger] raw@[j]) is Ok)))),
{
    let mut out: Vec<Option<Vec<u8>>> = Vec::new();
    let mut i: usize = 0;
    while i < raw.len()
        invariant
            0 <= i <= raw@.len(),
            out@.len() == i,
            forall|j: int| 0 <= j < i ==> (#[trigger] raw@[j]) is Ok,
            forall|j: int|
                0 <= j < i ==> ((#[trigger] raw@[j]) matches Ok(o) && opt_bytes(out@[j])
                    == opt_bytes(o)),
        decreases raw@.len() - i,
    {
        match &raw[i] {
            Ok(Some(v)) => out.push(Some(slice_to_vec(v.as_slice()))),
            Ok(None) => out.push(None),
            Err(m) => {
                return Err(DbError::Store(m.clone()));
            },
        }
        i += 1;
    }
    Ok(out)
}

/// Turns the engine's answer to the key-count property query into the
/// approximate size: the reported statistic, zero when the engine reports no
/// value, and the engine's failure passed on as a `Store` error.
pub fn size_from_stat(stat: &Result<Option<u64>, String>) -> (r: Result<u64, DbError>)
    ensures
        *stat matches Ok(o) ==> (r matches Ok(n) && n == (match o {
            Some(m) => m,
            None => 0u64,
        })),
        *stat matches Err(m) ==> (r matches Err(e) && e matches DbError::Store(mm) && mm@ == m@),
{
    match stat {
        Ok(Some(n)) => Ok(*n),
        Ok(None) => Ok(0),
        Err(m) => Err(DbError::Store(m.clone())),
    }
}

} // verus!
