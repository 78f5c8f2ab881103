use vstd::prelude::*;

verus! {

/// The logical contents of the store: a finite map from byte-string keys to
/// byte-string values.
pub type Contents = Map<Seq<u8>, Seq<u8>>;

/// The value stored under `k`, if any.
pub open spec fn lookup(m: Contents, k: Seq<u8>) -> Option<Seq<u8>> {
    if m.contains_key(k) {
        Some(m[k])
    } else {
        None
    }
}

/// The view of an optional byte string.
pub open spec fn opt_bytes(o: Option<Vec<u8>>) -> Option<Seq<u8>> {
    match o {
        Some(v) => Some(v@),
        None => None,
    }
}

/// Strict byte-lexicographic order: `a` comes before `b`.
pub open spec fn lex_lt(a: Seq<u8>, b: Seq<u8>) -> bool
    decreases a.len(),
{
    if b.len() == 0 {
        false
    } else if a.len() == 0 {
        true
    } else if a[0] < b[0] {
        true
    } else if a[0] > b[0] {
        false
    } else {
        lex_lt(a.skip(1), b.skip(1))
    }
}

/// Strict order in scan direction: ascending when `forward`, else descending.
pub open spec fn scan_lt(a: Seq<u8>, b: Seq<u8>, forward: bool) -> bool {
    if forward {
        lex_lt(a, b)
    } else {
        lex_lt(b, a)
    }
}

/// Whether key `k` lies in the half-space a scan covers: everything from
/// `start` (inclusive) onward in the scan's direction, or the whole keyspace
/// when the scan begins at its edge.
pub open spec fn in_scan_range(k: Seq<u8>, forward: bool, start: Option<Seq<u8>>) -> bool {
    match start {
        None => true,
        Some(b) => !scan_lt(k, b, forward),
    }
}

/// `s` is exactly the scan of `m`: every entry is a pair of `m` within the
/// scan's range, entries come in strict scan order, and every in-range key of
/// `m` occurs. These clauses pin `s` down uniquely (`lemma_scan_deterministic`).
pub open spec fn scan_of(m: Contents, s: Seq<(Seq<u8>, Seq<u8>)>, forward: bool, start: Option<Seq<u8>>) -> bool {
    &&& (forall|i: int| 0 <= i < s.len() ==> m.contains_pair((#[trigger] s[i]).0, s[i].1))
    &&& (forall|i: int| 0 <= i < s.len() ==> in_scan_range((#[trigger] s[i]).0, forward, start))
    &&& (forall|i: int, j: int| 0 <= i < j < s.len() ==> scan_lt((#[trigger] s[i]).0, (#[trigger] s[j]).0, forward))
    &&& (forall|k: Seq<u8>| #[trigger] m.contains_key(k) && in_scan_range(k, forward, start)
            ==> exists|i: int| 0 <= i < s.len() && (#[trigger] s[i]).0 == k)
}

/// One pending mutation of a write batch.
pub enum Op {
    /// Associate the value with the key, overwriting any prior value.
    Put(Seq<u8>, Seq<u8>),
    /// Remove the key; removing an absent key changes nothing.
    Delete(Seq<u8>),
}

/// The contents after one mutation.
pub open spec fn apply_op(m: Contents, op: Op) -> Contents {
    match op {
        Op::Put(k, v) => m.insert(k, v),
        Op::Delete(k) => m.remove(k),
    }
}

/// The contents after applying `ops` in order, oldest first.
pub open spec fn apply_ops(m: Contents, ops: Seq<Op>) -> Contents
    decreases ops.len(),
{
    if ops.len() == 0 {
        m
    } else {
        apply_ops(apply_op(m, ops[0]), ops.skip(1))
    }
}

/// No key comes before itself.
pub proof fn lemma_lex_irrefl(a: Seq<u8>)
    ensures
        !lex_lt(a, a),
    decreases a.len(),
{
    if a.len() > 0 {
        lemma_lex_irrefl(a.skip(1));
    }
}

/// Byte-lexicographic order is transitive.
pub proof fn lemma_lex_trans(a: Seq<u8>, b: Seq<u8>, c: Seq<u8>)
    requires
        lex_lt(a, b),
        lex_lt(b, c),
    ensures
        lex_lt(a, c),
    decreases b.len(),
{
    if a.len() > 0 && b.len() > 0 && c.len() > 0 {
        if a[0] == b[0] && b[0] == c[0] {
            lemma_lex_trans(a.skip(1), b.skip(1), c.skip(1));
        }
    }
}

/// Scan order is irreflexive in either direction.
pub proof fn lemma_scan_lt_irrefl(a: Seq<u8>, forward: bool)
    ensures
        !scan_lt(a, a, forward),
{
    lemma_lex_irrefl(a);
}

/// Scan order is transitive in either direction.
pub proof fn lemma_scan_lt_trans(a: Seq<u8>, b: Seq<u8>, c: Seq<u8>, forward: bool)
    requires
        scan_lt(a, b, forward),
        scan_lt(b, c, forward),
    ensures
        scan_lt(a, c, forward),
{
    if forward {
        lemma_lex_trans(a, b, c);
    } else {
        lemma_lex_trans(c, b, a);
    }
}

} // verus!
