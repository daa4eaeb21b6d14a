use tiledb_predicates::bitmap::{
    reduce_into_bitmap, reduce_into_bitmap_u64, reduce_into_bitmap_u8, EvaluationOutput,
};
use tiledb_predicates::engine::OutputKind;
use tiledb_predicates::physical_expr::evaluation_output;
use tiledb_predicates::query_predicates::{fold_output, EvaluatePredicateError};

fn per_row(values: &[Option<bool>]) -> EvaluationOutput {
    EvaluationOutput::Array(values.to_vec())
}

#[test]
fn uniform_true_leaves_the_bitmap() {
    let mut bitmap = vec![1u8, 0, 5, 0, 1];
    reduce_into_bitmap_u8(&EvaluationOutput::Scalar(Some(true)), &mut bitmap);
    assert_eq!(bitmap, vec![1, 0, 5, 0, 1]);
}

#[test]
fn uniform_false_or_null_clears_the_bitmap() {
    let mut bitmap = vec![1u8, 0, 5, 0, 1];
    reduce_into_bitmap_u8(&EvaluationOutput::Scalar(Some(false)), &mut bitmap);
    assert_eq!(bitmap, vec![0, 0, 0, 0, 0]);
    let mut counts = vec![3u64, 0, 9];
    reduce_into_bitmap_u64(&EvaluationOutput::Scalar(None), &mut counts);
    assert_eq!(counts, vec![0, 0, 0]);
}

#[test]
fn rows_which_are_not_true_are_cleared() {
    let output = per_row(&[Some(true), Some(false), None, Some(true), Some(true)]);
    let mut bitmap = vec![1u8, 1, 1, 0, 2];
    reduce_into_bitmap_u8(&output, &mut bitmap);
    assert_eq!(bitmap, vec![1, 0, 0, 0, 2]);
    let mut counts = vec![9u64, 9, 9, 9, 9];
    reduce_into_bitmap_u64(&output, &mut counts);
    assert_eq!(counts, vec![9, 0, 0, 9, 9]);
    assert!(output.is_array());
    assert!(!output.is_scalar());
}

#[test]
fn the_cleared_value_is_the_one_given() {
    let output = per_row(&[Some(false), Some(true)]);
    let mut marks = vec!['x', 'y'];
    reduce_into_bitmap(&output, &mut marks, '-');
    assert_eq!(marks, vec!['-', 'y']);
}

#[test]
fn reducing_twice_is_reducing_once() {
    let output = per_row(&[Some(true), None, Some(false), Some(true)]);
    let mut once = vec![1u8, 1, 1, 1];
    reduce_into_bitmap_u8(&output, &mut once);
    let mut twice = once.clone();
    reduce_into_bitmap_u8(&output, &mut twice);
    assert_eq!(once, twice);
    assert_eq!(once, vec![1, 0, 0, 1]);
}

#[test]
fn the_order_of_two_predicates_does_not_matter() {
    let narrow = per_row(&[Some(true), Some(true), Some(false), None, Some(true)]);
    let wide = per_row(&[Some(true), None, Some(true), Some(true), Some(false)]);
    let mut first = vec![1u8, 1, 1, 1, 1];
    reduce_into_bitmap_u8(&narrow, &mut first);
    reduce_into_bitmap_u8(&wide, &mut first);
    let mut second = vec![1u8, 1, 1, 1, 1];
    reduce_into_bitmap_u8(&wide, &mut second);
    reduce_into_bitmap_u8(&narrow, &mut second);
    assert_eq!(first, second);
    assert_eq!(first, vec![1, 0, 0, 0, 0]);
}

#[test]
fn an_empty_bitmap_stays_empty() {
    let mut bitmap: Vec<u8> = vec![];
    reduce_into_bitmap_u8(&per_row(&[]), &mut bitmap);
    reduce_into_bitmap_u8(&EvaluationOutput::Scalar(None), &mut bitmap);
    assert!(bitmap.is_empty());
}

#[test]
fn kinds_of_output_have_their_truth_values() {
    assert!(matches!(
        evaluation_output(OutputKind::BooleanScalar(Some(true))),
        Some(EvaluationOutput::Scalar(Some(true)))
    ));
    assert!(matches!(
        evaluation_output(OutputKind::BooleanScalar(None)),
        Some(EvaluationOutput::Scalar(None))
    ));
    assert!(matches!(
        evaluation_output(OutputKind::NullScalar),
        Some(EvaluationOutput::Scalar(None))
    ));
    assert!(matches!(
        evaluation_output(OutputKind::NullArray(3)),
        Some(EvaluationOutput::Scalar(None))
    ));
    assert!(evaluation_output(OutputKind::OtherScalar).is_none());
    assert!(evaluation_output(OutputKind::OtherArray).is_none());
    match evaluation_output(OutputKind::BooleanArray(vec![Some(true), None])) {
        Some(EvaluationOutput::Array(values)) => assert_eq!(values, vec![Some(true), None]),
        _ => panic!("one outcome for each row was expected"),
    }
}

#[test]
fn output_is_folded_or_refused() {
    let mut bitmap = vec![1u8, 1, 1];
    fold_output(
        OutputKind::BooleanArray(vec![Some(true), Some(false), None]),
        &mut bitmap,
        0,
    )
    .unwrap();
    assert_eq!(bitmap, vec![1, 0, 0]);
    let mut bitmap = vec![1u8, 1, 1];
    fold_output(OutputKind::NullArray(3), &mut bitmap, 0).unwrap();
    assert_eq!(bitmap, vec![0, 0, 0]);
    let mut bitmap = vec![1u8, 1, 1];
    assert!(matches!(
        fold_output(OutputKind::BooleanArray(vec![Some(false)]), &mut bitmap, 0),
        Err(EvaluatePredicateError::UnexpectedOutput)
    ));
    assert!(matches!(
        fold_output(OutputKind::OtherArray, &mut bitmap, 0),
        Err(EvaluatePredicateError::UnexpectedOutput)
    ));
    assert!(matches!(
        fold_output(OutputKind::OtherScalar, &mut bitmap, 0),
        Err(EvaluatePredicateError::UnexpectedOutput)
    ));
    assert_eq!(bitmap, vec![1, 1, 1]);
    fold_output(OutputKind::BooleanScalar(Some(true)), &mut bitmap, 0).unwrap();
    assert_eq!(bitmap, vec![1, 1, 1]);
    fold_output(OutputKind::NullScalar, &mut bitmap, 0).unwrap();
    assert_eq!(bitmap, vec![0, 0, 0]);
}
