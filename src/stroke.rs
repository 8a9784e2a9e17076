use vstd::prelude::*;

use crate::error::{ElementOrderError, ModelerError};
use crate::input::ModelerInputEventType;

verus! {

/// What the modeler does with an accepted event.
#[derive(Debug, Clone, Copy, PartialEq, Eq, Structural)]
pub enum StrokeAction {
    /// Start a stroke: seed the smoother, the position model and the pressure history.
    Begin,
    /// Extend the stroke with upsampled steps toward the new position.
    Extend,
    /// Extend the stroke, add the end-of-stroke tail and end the stroke.
    Finish,
}

/// The stroke state machine: what an event of kind `kind` does, given whether a stroke
/// is in progress, or why it is refused.
pub open spec fn transition(in_stroke: bool, kind: ModelerInputEventType) -> Result<
    StrokeAction,
    ElementOrderError,
> {
    match kind {
        ModelerInputEventType::Down => if in_stroke {
            Err(ElementOrderError::UnexpectedDown)
        } else {
            Ok(StrokeAction::Begin)
        },
        ModelerInputEventType::Move => if in_stroke {
            Ok(StrokeAction::Extend)
        } else {
            Err(ElementOrderError::UnexpectedMove)
        },
        ModelerInputEventType::Up => if in_stroke {
            Ok(StrokeAction::Finish)
        } else {
            Err(ElementOrderError::UnexpectedUp)
        },
    }
}

/// Decides what an event of kind `kind` does, given whether a stroke is in progress.
pub fn dispatch(in_stroke: bool, kind: ModelerInputEventType) -> (r: Result<
    StrokeAction,
    ElementOrderError,
>)
    ensures
        r == transition(in_stroke, kind),
{
    match kind {
        ModelerInputEventType::Down => if in_stroke {
            Err(ElementOrderError::UnexpectedDown)
        } else {
            Ok(StrokeAction::Begin)
        },
        ModelerInputEventType::Move => if in_stroke {
            Ok(StrokeAction::Extend)
        } else {
            Err(ElementOrderError::UnexpectedMove)
        },
        ModelerInputEventType::Up => if in_stroke {
            Ok(StrokeAction::Finish)
        } else {
            Err(ElementOrderError::UnexpectedUp)
        },
    }
}

impl StrokeAction {
    /// Whether a stroke is in progress once the action is done.
    pub fn stroke_continues(&self) -> (r: bool)
        ensures
            r == !(*self is Finish),
    {
        match self {
            StrokeAction::Finish => false,
            _ => true,
        }
    }
}

/// A prediction needs a stroke in progress.
pub fn check_prediction(in_stroke: bool) -> (r: Result<(), ModelerError>)
    ensures
        in_stroke ==> r is Ok,
        !in_stroke ==> r == Err::<(), ModelerError>(ModelerError::NoStrokeInProgress),
{
    if in_stroke {
        Ok(())
    } else {
        Err(ModelerError::NoStrokeInProgress)
    }
}

/// What a batch that ends a stroke holds: the steps along the path and then the tail,
/// or `filler` alone when both are empty.
pub open spec fn end_batch<T>(path: Seq<T>, tail: Seq<T>, filler: T) -> Seq<T> {
    if path.len() + tail.len() == 0 {
        seq![filler]
    } else {
        path + tail
    }
}

/// Assembles the batch that ends a stroke, so that an `Up` always yields at least one
/// sample.
pub fn end_of_stroke_batch<T>(path: Vec<T>, tail: Vec<T>, filler: T) -> (r: Vec<T>)
    ensures
        r@ == end_batch(path@, tail@, filler),
        r@.len() >= 1,
{
    let mut path = path;
    let mut tail = tail;
    if path.len() == 0 && tail.len() == 0 {
        let mut r: Vec<T> = Vec::new();
        r.push(filler);
        assert(r@ =~= seq![filler]);
        r
    } else {
        path.append(&mut tail);
        path
    }
}

/// When no step is taken along the path (the stroke ends at the time of its previous
/// event) and the tail is empty, the batch holds exactly one sample, the filler.
pub proof fn lemma_empty_end_yields_filler<T>(tail: Seq<T>, filler: T)
    requires
        tail.len() == 0,
    ensures
        end_batch(Seq::<T>::empty(), tail, filler) == seq![filler],
        end_batch(Seq::<T>::empty(), tail, filler).len() == 1,
{
}

} // verus!
