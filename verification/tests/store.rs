use terrapoker::storage::IndexEntry;
use terrapoker::store::{compare_bytes, compare_keys, Bucket, Cursor, KeyOrder};

fn ids(entries: Vec<IndexEntry>) -> Vec<u64> {
    entries.iter().map(|e| e.id).collect()
}

fn bucket_of(values: &[u64]) -> Bucket<IndexEntry> {
    let mut bucket = Bucket::new();
    for id in values {
        bucket.put(IndexEntry { id: *id });
    }
    bucket
}

fn after(id: u64) -> Option<Cursor> {
    Some(Cursor { num: id, text: String::new() })
}

#[test]
fn bytes_are_compared_lexicographically() {
    assert_eq!(compare_bytes(b"", b""), KeyOrder::Equal);
    assert_eq!(compare_bytes(b"", b"a"), KeyOrder::Less);
    assert_eq!(compare_bytes(b"a", b""), KeyOrder::Greater);
    assert_eq!(compare_bytes(b"abc", b"abd"), KeyOrder::Less);
    assert_eq!(compare_bytes(b"abd", b"abc"), KeyOrder::Greater);
    assert_eq!(compare_bytes(b"ab", b"abc"), KeyOrder::Less);
    assert_eq!(compare_bytes(b"b", b"abc"), KeyOrder::Greater);
    assert_eq!(compare_bytes(b"abc", b"abc"), KeyOrder::Equal);
    assert_eq!(compare_bytes(&[255], &[0, 255]), KeyOrder::Greater);
}

#[test]
fn keys_are_compared_by_number_then_text() {
    assert_eq!(compare_keys(1, "z", 2, "a"), KeyOrder::Less);
    assert_eq!(compare_keys(2, "a", 1, "z"), KeyOrder::Greater);
    assert_eq!(compare_keys(1, "a", 1, "b"), KeyOrder::Less);
    assert_eq!(compare_keys(1, "b", 1, "a"), KeyOrder::Greater);
    assert_eq!(compare_keys(1, "a", 1, "a"), KeyOrder::Equal);
    assert_eq!(compare_keys(1, "Z", 1, "a"), KeyOrder::Less);
    assert_eq!(compare_keys(0, "é", 0, "z"), KeyOrder::Greater);
    for (a, b) in [("a", "b"), ("", "a"), ("abc", "abd"), ("é", "f"), ("B", "a")] {
        let expected = if a < b { KeyOrder::Less } else { KeyOrder::Greater };
        assert_eq!(compare_keys(0, a, 0, b), expected);
    }
}

#[test]
fn bucket_keeps_one_record_per_key_in_order() {
    let mut bucket = bucket_of(&[5, 1, 9, 3, 5, 1]);
    assert_eq!(bucket.len(), 4);
    assert_eq!(
        (0..bucket.len()).map(|i| bucket.at(i).id).collect::<Vec<u64>>(),
        vec![1, 3, 5, 9]
    );
    assert!(bucket.contains_key(3, ""));
    assert!(!bucket.contains_key(4, ""));
    assert!(!bucket.contains_key(3, "x"));
    assert_eq!(bucket.get(9, ""), Some(&IndexEntry { id: 9 }));
    assert_eq!(bucket.get(2, ""), None);
    bucket.delete(3, "");
    bucket.delete(4, "");
    assert_eq!(ids(bucket.walk(None, None, false, 10)), vec![1, 5, 9]);
    bucket.delete(1, "");
    bucket.delete(9, "");
    bucket.delete(5, "");
    assert_eq!(bucket.len(), 0);
    assert_eq!(ids(bucket.walk(None, None, true, 10)), Vec::<u64>::new());
}

#[test]
fn walks_respect_cursor_direction_and_limit() {
    let bucket = bucket_of(&[10, 20, 30, 40, 50]);
    assert_eq!(ids(bucket.walk(None, None, false, 2)), vec![10, 20]);
    assert_eq!(ids(bucket.walk(None, None, true, 2)), vec![50, 40]);
    assert_eq!(ids(bucket.walk(None, after(20), false, 10)), vec![30, 40, 50]);
    assert_eq!(ids(bucket.walk(None, after(25), false, 1)), vec![30]);
    assert_eq!(ids(bucket.walk(None, after(30), true, 10)), vec![20, 10]);
    assert_eq!(ids(bucket.walk(None, after(10), true, 10)), Vec::<u64>::new());
    assert_eq!(ids(bucket.walk(Some(40), None, false, 10)), vec![40]);
    assert_eq!(ids(bucket.walk(Some(41), None, false, 10)), Vec::<u64>::new());
    assert_eq!(ids(bucket.walk(None, None, false, 0)), Vec::<u64>::new());
    assert_eq!(ids(bucket.walk(None, None, false, usize::MAX)), vec![10, 20, 30, 40, 50]);
}
