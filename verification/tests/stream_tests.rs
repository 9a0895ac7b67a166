use bear_bridge_engine::{BearBridgeError, Condition, JoinIterator};
use polars::prelude::{Column, DataFrame, NamedFrom};

fn frame(rows: i32) -> DataFrame {
    let values: Vec<i32> = (0..rows).collect();
    DataFrame::new(vec![Column::new("v".into(), values)]).unwrap()
}

fn stream(rows: i32, chunk_size: usize) -> JoinIterator {
    JoinIterator {
        left: frame(rows),
        right: frame(2),
        conditions: vec![Condition::Standard { left_col: "v".into(), right_col: "v".into(), op: "<".into() }],
        how: "inner".into(),
        current_chunk: 0,
        chunk_size,
    }
}

#[test]
fn chunks_cover_left_rows_in_order() {
    let mut it = stream(5, 2);
    let mut seen: Vec<i32> = Vec::new();
    let mut heights = Vec::new();
    while let Some(chunk) = it.next_left_slice() {
        heights.push(chunk.height());
        assert_eq!(chunk.get_column_names()[0].as_str(), "v");
        let col = chunk.column("v").unwrap().i32().unwrap();
        for v in col.into_iter() {
            seen.push(v.unwrap());
        }
    }
    assert_eq!(heights, vec![2, 2, 1]);
    assert_eq!(seen, vec![0, 1, 2, 3, 4]);
    assert_eq!(it.current_chunk, 3);
    // Used up: the stream stays where it is.
    assert!(it.next_left_slice().is_none());
    assert_eq!(it.current_chunk, 3);
}

#[test]
fn chunk_larger_than_frame_and_empty_frame() {
    let mut it = stream(3, 10);
    assert_eq!(it.next_left_slice().unwrap().height(), 3);
    assert!(it.next_left_slice().is_none());

    let mut it = stream(0, 4);
    assert!(it.next_left_slice().is_none());
    assert_eq!(it.current_chunk, 0);
}

#[test]
fn huge_chunk_index_ends_the_stream() {
    let mut it = stream(4, usize::MAX);
    it.current_chunk = 2;
    assert!(it.next_left_slice().is_none());
}

#[test]
fn zero_chunk_size_gives_empty_chunks() {
    let mut it = stream(4, 0);
    assert_eq!(it.next_left_slice().unwrap().height(), 0);
    assert_eq!(it.current_chunk, 1);
}

#[test]
fn empty_results_are_skipped() {
    assert!(JoinIterator::emits(&Ok(frame(1))));
    assert!(!JoinIterator::emits(&Ok(frame(0))));
    assert!(JoinIterator::emits(&Err(BearBridgeError::InvalidJoinType("x".into()))));
}

#[test]
fn checked_slices_within_limits() {
    let mut it = stream(3, 2);
    assert_eq!(it.checked_next_left_slice().unwrap().unwrap().height(), 2);
    assert_eq!(it.checked_next_left_slice().unwrap().unwrap().height(), 1);
    assert!(it.checked_next_left_slice().unwrap().is_none());

    // A chunk counter at its end with empty chunks cannot advance.
    let mut it = stream(3, 0);
    it.current_chunk = usize::MAX;
    assert!(it.checked_next_left_slice().is_none());
    assert_eq!(it.current_chunk, usize::MAX);

    // With an empty frame there is nothing to advance over.
    let mut it = stream(0, 0);
    it.current_chunk = usize::MAX;
    assert!(it.checked_next_left_slice().unwrap().is_none());
}
