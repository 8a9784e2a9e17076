use ink_stroke_modeler::error::{ElementOrderError, ModelerError};
use ink_stroke_modeler::input::ModelerInputEventType;
use ink_stroke_modeler::stroke::{check_prediction, dispatch, end_of_stroke_batch, StrokeAction};

#[test]
fn down_starts_a_stroke_when_idle() {
    assert_eq!(dispatch(false, ModelerInputEventType::Down), Ok(StrokeAction::Begin));
    assert!(StrokeAction::Begin.stroke_continues());
}

#[test]
fn move_and_up_before_down_are_refused() {
    assert_eq!(
        dispatch(false, ModelerInputEventType::Move),
        Err(ElementOrderError::UnexpectedMove)
    );
    assert_eq!(
        dispatch(false, ModelerInputEventType::Up),
        Err(ElementOrderError::UnexpectedUp)
    );
}

#[test]
fn down_during_a_stroke_is_refused() {
    assert_eq!(
        dispatch(true, ModelerInputEventType::Down),
        Err(ElementOrderError::UnexpectedDown)
    );
}

#[test]
fn move_extends_and_up_finishes() {
    assert_eq!(dispatch(true, ModelerInputEventType::Move), Ok(StrokeAction::Extend));
    assert!(StrokeAction::Extend.stroke_continues());
    assert_eq!(dispatch(true, ModelerInputEventType::Up), Ok(StrokeAction::Finish));
    assert!(!StrokeAction::Finish.stroke_continues());
}

#[test]
fn prediction_needs_a_stroke() {
    assert_eq!(check_prediction(true), Ok(()));
    assert_eq!(check_prediction(false), Err(ModelerError::NoStrokeInProgress));
}

#[test]
fn empty_end_of_stroke_yields_the_filler_alone() {
    let r = end_of_stroke_batch(Vec::<u32>::new(), Vec::new(), 9);
    assert_eq!(r, vec![9]);
}

#[test]
fn end_of_stroke_batch_joins_path_and_tail() {
    assert_eq!(end_of_stroke_batch(vec![1u32, 2], vec![3], 9), vec![1, 2, 3]);
    assert_eq!(end_of_stroke_batch(vec![], vec![3u32, 4], 9), vec![3, 4]);
    assert_eq!(end_of_stroke_batch(vec![1u32], vec![], 9), vec![1]);
}
