use duckfn::batch::{check_batch_length, merge_null_rows, split_null_rows};

#[test]
fn splitting_a_batch_keeps_order() {
    let rows = vec![Some(10), None, Some(30), None, None, Some(60)];
    let (present, nulls) = split_null_rows(rows);
    assert_eq!(present, vec![10, 30, 60]);
    assert_eq!(nulls, vec![1, 3, 4]);
}

#[test]
fn merging_fills_nulls_back_in() {
    let merged = merge_null_rows(vec!["a", "c"], vec![1, 3]);
    assert_eq!(merged, vec![Some("a"), None, Some("c"), None]);
}

#[test]
fn merge_undoes_split() {
    let rows = vec![None, Some(2u8), Some(3), None];
    let (present, nulls) = split_null_rows(rows.clone());
    assert_eq!(merge_null_rows(present, nulls), rows);
}

#[test]
fn batch_without_nulls_and_all_nulls() {
    let (present, nulls) = split_null_rows(vec![Some(1), Some(2)]);
    assert_eq!((present.clone(), nulls.clone()), (vec![1, 2], vec![]));
    assert_eq!(merge_null_rows(present, nulls), vec![Some(1), Some(2)]);
    let (present, nulls) = split_null_rows::<i32>(vec![None, None]);
    assert!(present.is_empty());
    assert_eq!(nulls, vec![0, 1]);
    assert_eq!(merge_null_rows(present, nulls), vec![None::<i32>, None]);
}

#[test]
fn batch_length_mismatch_messages() {
    assert!(check_batch_length("f", 3, 3, true).is_ok());
    assert_eq!(
        check_batch_length("my_fn", 2, 3, true).expect_err("mismatch").as_str(),
        "my_fn: batch function returned 2 rows, but received 3 input rows"
    );
    assert_eq!(
        check_batch_length("my_fn", 4, 1, false).expect_err("mismatch").as_str(),
        "my_fn: batch function returned 4 rows, but received 1 non-NULL input rows"
    );
}
