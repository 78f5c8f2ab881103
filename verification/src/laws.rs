use vstd::prelude::*;

use crate::model::{
    apply_ops, in_scan_range, lemma_scan_lt_irrefl, lemma_scan_lt_trans, lookup, scan_lt, scan_of,
    Contents, Op,
};

verus! {

/// Round trip: writing `v` under `k` and then reading `k` yields exactly `v`,
/// whatever the store already held there.
pub proof fn lemma_put_round_trip(m: Contents, k: Seq<u8>, v: Seq<u8>)
    ensures
        lookup(m.insert(k, v), k) == Some(v),
{
}

/// A write changes nothing outside its own key.
pub proof fn lemma_put_other(m: Contents, k: Seq<u8>, v: Seq<u8>, other: Seq<u8>)
    requires
        other != k,
    ensures
        lookup(m.insert(k, v), other) == lookup(m, other),
{
}

/// Deletion: after deleting `k` it reads as absent, and deleting an absent
/// key leaves the store exactly as it was.
pub proof fn lemma_delete(m: Contents, k: Seq<u8>)
    ensures
        lookup(m.remove(k), k) is None,
        lookup(m, k) is None ==> m.remove(k) == m,
{
    if lookup(m, k) is None {
        assert(m.remove(k) =~= m);
    }
}

/// A batch holding one put and one delete, committed once, performs exactly
/// those two mutations, in accumulation order, as one unit.
pub proof fn lemma_batch_pair(m: Contents, k1: Seq<u8>, v1: Seq<u8>, k2: Seq<u8>)
    ensures
        apply_ops(m, seq![Op::Put(k1, v1), Op::Delete(k2)]) == m.insert(k1, v1).remove(k2),
{
    reveal_with_fuel(apply_ops, 4);
    let ops = seq![Op::Put(k1, v1), Op::Delete(k2)];
    assert(ops.skip(1) =~= seq![Op::Delete(k2)]);
    assert(ops.skip(1).skip(1) =~= Seq::<Op>::empty());
}

/// Scans are determined: the scan clauses — pairs of the contents, within
/// range, in strict scan order, nothing in range missing — pin down one
/// sequence. In particular the ascending scan, the descending scan and every
/// bounded-start scan of given contents are each unique.
pub proof fn lemma_scan_deterministic(
    m: Contents,
    s1: Seq<(Seq<u8>, Seq<u8>)>,
    s2: Seq<(Seq<u8>, Seq<u8>)>,
    forward: bool,
    start: Option<Seq<u8>>,
)
    requires
        scan_of(m, s1, forward, start),
        scan_of(m, s2, forward, start),
    ensures
        s1 == s2,
    decreases s1.len(),
{
    if s1.len() == 0 {
        if s2.len() > 0 {
            let k = s2[0].0;
            assert(m.contains_key(k) && in_scan_range(k, forward, start));
            assert(exists|i: int| 0 <= i < s1.len() && (#[trigger] s1[i]).0 == k);
            assert(false);
        }
        assert(s1 =~= s2);
    } else if s2.len() == 0 {
        let k = s1[0].0;
        assert(m.contains_key(k) && in_scan_range(k, forward, start));
        assert(exists|i: int| 0 <= i < s2.len() && (#[trigger] s2[i]).0 == k);
        assert(false);
    } else {
        let k1 = s1[0].0;
        let k2 = s2[0].0;
        assert(m.contains_key(k1) && in_scan_range(k1, forward, start));
        assert(m.contains_key(k2) && in_scan_range(k2, forward, start));
        assert(exists|j: int| 0 <= j < s2.len() && (#[trigger] s2[j]).0 == k1);
        assert(exists|i: int| 0 <= i < s1.len() && (#[trigger] s1[i]).0 == k2);
        let j = choose|j: int| 0 <= j < s2.len() && (#[trigger] s2[j]).0 == k1;
        let i = choose|i: int| 0 <= i < s1.len() && (#[trigger] s1[i]).0 == k2;
        if k1 != k2 {
            assert(j != 0);
            assert(i != 0);
            assert(scan_lt(k2, k1, forward));
            assert(scan_lt(k1, k2, forward));
            lemma_scan_lt_trans(k1, k2, k1, forward);
            lemma_scan_lt_irrefl(k1, forward);
            assert(false);
        }
        assert(m.contains_pair(s1[0].0, s1[0].1));
        assert(m.contains_pair(s2[0].0, s2[0].1));
        assert(s1[0].1 == m[k1]);
        assert(s2[0].1 == m[k1]);

        let m2 = m.remove(k1);
        let t1 = s1.skip(1);
        let t2 = s2.skip(1);

        assert forall|a: int| 0 <= a < t1.len() implies m2.contains_pair(
            (#[trigger] t1[a]).0,
            t1[a].1,
        ) && in_scan_range(t1[a].0, forward, start) by {
            assert(t1[a] == s1[a + 1]);
            assert(scan_lt(s1[0].0, s1[a + 1].0, forward));
            lemma_scan_lt_irrefl(s1[a + 1].0, forward);
            assert(s1[a + 1].0 != k1);
            assert(m.contains_pair(s1[a + 1].0, s1[a + 1].1));
        }
        assert forall|a: int| 0 <= a < t2.len() implies m2.contains_pair(
            (#[trigger] t2[a]).0,
            t2[a].1,
        ) && in_scan_range(t2[a].0, forward, start) by {
            assert(t2[a] == s2[a + 1]);
            assert(scan_lt(s2[0].0, s2[a + 1].0, forward));
            lemma_scan_lt_irrefl(s2[a + 1].0, forward);
            assert(s2[a + 1].0 != k1);
            assert(m.contains_pair(s2[a + 1].0, s2[a + 1].1));
        }
        assert forall|a: int, b: int| 0 <= a < b < t1.len() implies scan_lt(
            (#[trigger] t1[a]).0,
            (#[trigger] t1[b]).0,
            forward,
        ) by {
            assert(t1[a] == s1[a + 1] && t1[b] == s1[b + 1]);
        }
        assert forall|a: int, b: int| 0 <= a < b < t2.len() implies scan_lt(
            (#[trigger] t2[a]).0,
            (#[trigger] t2[b]).0,
            forward,
        ) by {
            assert(t2[a] == s2[a + 1] && t2[b] == s2[b + 1]);
        }
        assert forall|k: Seq<u8>| #[trigger] m2.contains_key(k) && in_scan_range(k, forward, start)
            implies exists|a: int| 0 <= a < t1.len() && (#[trigger] t1[a]).0 == k by {
            assert(m.contains_key(k));
            assert(exists|i0: int| 0 <= i0 < s1.len() && (#[trigger] s1[i0]).0 == k);
            let i0 = choose|i0: int| 0 <= i0 < s1.len() && (#[trigger] s1[i0]).0 == k;
            assert(k != k1);
            assert(i0 != 0);
            assert(t1[i0 - 1] == s1[i0]);
            assert(0 <= i0 - 1 < t1.len() && (t1[i0 - 1]).0 == k);
        }
        assert forall|k: Seq<u8>| #[trigger] m2.contains_key(k) && in_scan_range(k, forward, start)
            implies exists|a: int| 0 <= a < t2.len() && (#[trigger] t2[a]).0 == k by {
            assert(m.contains_key(k));
            assert(exists|i0: int| 0 <= i0 < s2.len() && (#[trigger] s2[i0]).0 == k);
            let i0 = choose|i0: int| 0 <= i0 < s2.len() && (#[trigger] s2[i0]).0 == k;
            assert(k != k1);
            assert(i0 != 0);
            assert(t2[i0 - 1] == s2[i0]);
            assert(0 <= i0 - 1 < t2.len() && (t2[i0 - 1]).0 == k);
        }
        assert(scan_of(m2, t1, forward, start));
        assert(scan_of(m2, t2, forward, start));
        lemma_scan_deterministic(m2, t1, t2, forward, start);
        assert(s1.len() == s2.len());
        assert forall|a: int| 0 <= a < s1.len() implies s1[a] == s2[a] by {
            if a == 0 {
                assert(s1[0].0 == s2[0].0 && s1[0].1 == s2[0].1);
            } else {
                assert(s1[a] == t1[a - 1] && s2[a] == t2[a - 1]);
            }
        }
        assert(s1 =~= s2);
    }
}

} // verus!
