use std::collections::BTreeMap;

use rocks_store::batch::{BatchOp, WriteBatch};
use rocks_store::errors::{DbError, Direction};
use rocks_store::errors::parse_direction;
use rocks_store::iter::{plan_scan, plan_scan_from, DBIterator, PullEvent, ScanPlan};
use rocks_store::ops::{collect_results, size_from_stat};

// A stand-in engine for driving the iterator protocol: an ordered in-memory
// key space producing the events a native cursor would report for a plan.
fn scan_events(db: &BTreeMap<Vec<u8>, Vec<u8>>, plan: &ScanPlan) -> Vec<PullEvent> {
    let mut pairs: Vec<(Vec<u8>, Vec<u8>)> = match plan {
        ScanPlan::FromStart => db.iter().map(|(k, v)| (k.clone(), v.clone())).collect(),
        ScanPlan::FromEnd => db.iter().rev().map(|(k, v)| (k.clone(), v.clone())).collect(),
        ScanPlan::FromKeyForward(start) => db
            .iter()
            .filter(|(k, _)| k.as_slice() >= start.as_slice())
            .map(|(k, v)| (k.clone(), v.clone()))
            .collect(),
        ScanPlan::FromKeyReverse(start) => db
            .iter()
            .rev()
            .filter(|(k, _)| k.as_slice() <= start.as_slice())
            .map(|(k, v)| (k.clone(), v.clone()))
            .collect(),
    };
    let mut events: Vec<PullEvent> = pairs.drain(..).map(|(k, v)| PullEvent::Pair(k, v)).collect();
    events.push(PullEvent::End);
    events
}

fn sample_db() -> BTreeMap<Vec<u8>, Vec<u8>> {
    let mut db = BTreeMap::new();
    db.insert(b"a".to_vec(), b"1".to_vec());
    db.insert(b"b".to_vec(), b"2".to_vec());
    db.insert(b"c".to_vec(), b"3".to_vec());
    db
}

// Pulls the iterator to exhaustion over the given events, returning the
// pairs it delivered.
fn drain(it: &mut DBIterator, events: Vec<PullEvent>) -> Vec<(Vec<u8>, Vec<u8>)> {
    let mut out = Vec::new();
    let mut evs = events.into_iter();
    while it.needs_engine() {
        let ev = evs.next().unwrap_or(PullEvent::End);
        match it.step(ev) {
            Ok(Some(pair)) => out.push(pair),
            Ok(None) => {}
            Err(_) => {}
        }
    }
    out
}

#[test]
fn parse_direction_is_case_insensitive() {
    assert!(matches!(parse_direction("forward"), Ok(Direction::Forward)));
    assert!(matches!(parse_direction("FORWARD"), Ok(Direction::Forward)));
    assert!(matches!(parse_direction("Reverse"), Ok(Direction::Reverse)));
    assert!(matches!(parse_direction("rEvErSe"), Ok(Direction::Reverse)));
}

#[test]
fn parse_direction_rejects_other_tokens() {
    assert!(matches!(parse_direction("sideways"), Err(DbError::InvalidArgument)));
    assert!(matches!(parse_direction(""), Err(DbError::InvalidArgument)));
    assert!(matches!(parse_direction("forwards"), Err(DbError::InvalidArgument)));
    assert!(matches!(parse_direction("forward "), Err(DbError::InvalidArgument)));
}

#[test]
fn plan_scan_maps_directions_to_keyspace_edges() {
    assert!(matches!(plan_scan("forward"), Ok(ScanPlan::FromStart)));
    assert!(matches!(plan_scan("reverse"), Ok(ScanPlan::FromEnd)));
}

#[test]
fn plan_scan_rejects_invalid_direction_before_engine_work() {
    assert!(matches!(plan_scan("sideways"), Err(DbError::InvalidArgument)));
    assert!(matches!(plan_scan_from(b"b", "sideways"), Err(DbError::InvalidArgument)));
}

#[test]
fn plan_scan_from_keeps_key_and_direction() {
    assert!(matches!(plan_scan_from(b"b", "forward"),
        Ok(ScanPlan::FromKeyForward(k)) if k == b"b"));
    assert!(matches!(plan_scan_from(b"b", "REVERSE"),
        Ok(ScanPlan::FromKeyReverse(k)) if k == b"b"));
}

#[test]
fn forward_iteration_yields_ascending_order() {
    let db = sample_db();
    let plan = plan_scan("forward").unwrap();
    let mut it = DBIterator::new();
    let pairs = drain(&mut it, scan_events(&db, &plan));
    assert_eq!(
        pairs,
        vec![
            (b"a".to_vec(), b"1".to_vec()),
            (b"b".to_vec(), b"2".to_vec()),
            (b"c".to_vec(), b"3".to_vec()),
        ]
    );
}

#[test]
fn reverse_iteration_yields_descending_order() {
    let db = sample_db();
    let plan = plan_scan("reverse").unwrap();
    let mut it = DBIterator::new();
    let pairs = drain(&mut it, scan_events(&db, &plan));
    assert_eq!(
        pairs,
        vec![
            (b"c".to_vec(), b"3".to_vec()),
            (b"b".to_vec(), b"2".to_vec()),
            (b"a".to_vec(), b"1".to_vec()),
        ]
    );
}

#[test]
fn bounded_start_omits_keys_before_the_bound() {
    let db = sample_db();
    let plan = plan_scan_from(b"b", "forward").unwrap();
    let mut it = DBIterator::new();
    let pairs = drain(&mut it, scan_events(&db, &plan));
    assert_eq!(
        pairs,
        vec![(b"b".to_vec(), b"2".to_vec()), (b"c".to_vec(), b"3".to_vec())]
    );
}

#[test]
fn bounded_start_reverse_walks_down_from_the_bound() {
    let db = sample_db();
    let plan = plan_scan_from(b"b", "reverse").unwrap();
    let mut it = DBIterator::new();
    let pairs = drain(&mut it, scan_events(&db, &plan));
    assert_eq!(
        pairs,
        vec![(b"b".to_vec(), b"2".to_vec()), (b"a".to_vec(), b"1".to_vec())]
    );
}

#[test]
fn exhausted_iterator_keeps_reporting_end() {
    let mut it = DBIterator::new();
    assert!(matches!(it.step(PullEvent::End), Ok(None)));
    assert!(!it.needs_engine());
    // Further pulls stay at end-of-sequence, whatever happens around them.
    assert!(matches!(it.step(PullEvent::End), Ok(None)));
    assert!(matches!(
        it.step(PullEvent::Pair(b"x".to_vec(), b"y".to_vec())),
        Ok(None)
    ));
}

#[test]
fn cursor_failure_surfaces_once_then_exhausts() {
    let mut it = DBIterator::new();
    let first = it.step(PullEvent::Pair(b"a".to_vec(), b"1".to_vec()));
    assert!(matches!(first, Ok(Some((k, v))) if k == b"a" && v == b"1"));
    let failed = it.step(PullEvent::Fail("io error".to_string()));
    assert!(matches!(failed, Err(DbError::Store(m)) if m == "io error"));
    assert!(!it.needs_engine());
    assert!(matches!(it.step(PullEvent::End), Ok(None)));
}

#[test]
fn multi_get_keeps_length_and_order() {
    let raw: Vec<Result<Option<Vec<u8>>, String>> = vec![
        Ok(Some(b"1".to_vec())),
        Ok(None),
        Ok(Some(b"3".to_vec())),
    ];
    let out = collect_results(&raw).unwrap();
    assert_eq!(out.len(), 3);
    assert_eq!(out[0], Some(b"1".to_vec()));
    assert_eq!(out[1], None);
    assert_eq!(out[2], Some(b"3".to_vec()));
}

#[test]
fn multi_get_fails_whole_call_on_first_engine_error() {
    let raw: Vec<Result<Option<Vec<u8>>, String>> = vec![
        Ok(None),
        Err("bad block".to_string()),
        Err("worse block".to_string()),
    ];
    assert!(matches!(collect_results(&raw), Err(DbError::Store(m)) if m == "bad block"));
}

#[test]
fn batch_commits_put_and_delete_in_order_exactly_once() {
    let mut batch = WriteBatch::new();
    assert!(batch.put(b"k1", b"v1").is_ok());
    assert!(batch.delete(b"k2").is_ok());

    // The one successful commit hands out both mutations, in order, as one
    // unit; here they are applied to an engine stand-in in a single step.
    let ops = batch.take_ops().unwrap();
    assert_eq!(ops.len(), 2);
    let mut db = BTreeMap::new();
    db.insert(b"k2".to_vec(), b"old".to_vec());
    for op in &ops {
        match op {
            BatchOp::Put(k, v) => {
                db.insert(k.clone(), v.clone());
            }
            BatchOp::Delete(k) => {
                db.remove(k);
            }
        }
    }
    assert_eq!(db.get(b"k1".as_slice()), Some(&b"v1".to_vec()));
    assert_eq!(db.get(b"k2".as_slice()), None);

    // A second commit fails and performs no further mutation.
    assert!(matches!(batch.take_ops(), Err(DbError::AlreadyUsed)));
}

#[test]
fn consumed_batch_rejects_every_operation() {
    let mut batch = WriteBatch::new();
    assert!(batch.put(b"k", b"v").is_ok());
    batch.take_ops().unwrap();
    assert!(matches!(batch.put(b"k2", b"v2"), Err(DbError::AlreadyUsed)));
    assert!(matches!(batch.delete(b"k"), Err(DbError::AlreadyUsed)));
    assert!(matches!(batch.take_ops(), Err(DbError::AlreadyUsed)));
}

#[test]
fn batch_keeps_equal_keys_in_order_so_the_last_write_wins() {
    let mut batch = WriteBatch::new();
    assert!(batch.put(b"k", b"first").is_ok());
    assert!(batch.put(b"k", b"second").is_ok());
    let ops = batch.take_ops().unwrap();
    assert_eq!(ops.len(), 2);
    let mut db: BTreeMap<Vec<u8>, Vec<u8>> = BTreeMap::new();
    for op in &ops {
        match op {
            BatchOp::Put(k, v) => {
                db.insert(k.clone(), v.clone());
            }
            BatchOp::Delete(k) => {
                db.remove(k);
            }
        }
    }
    assert_eq!(db.get(b"k".as_slice()), Some(&b"second".to_vec()));
}

#[test]
fn empty_batch_commits_no_operations() {
    let mut batch = WriteBatch::new();
    let ops = batch.take_ops().unwrap();
    assert_eq!(ops.len(), 0);
}

#[test]
fn size_from_stat_reads_the_statistic() {
    assert!(matches!(size_from_stat(&Ok(Some(42))), Ok(42)));
    assert!(matches!(size_from_stat(&Ok(None)), Ok(0)));
    assert!(matches!(
        size_from_stat(&Err("property query failed".to_string())),
        Err(DbError::Store(m)) if m == "property query failed"
    ));
}

#[test]
fn error_messages_describe_each_failure() {
    assert_eq!(
        DbError::InvalidArgument.message(),
        "Invalid direction, must be 'forward' or 'reverse'"
    );
    assert_eq!(DbError::AlreadyUsed.message(), "WriteBatch has already been used");
    assert_eq!(DbError::Store("corruption".to_string()).message(), "corruption");
}
