use vstd::prelude::*;

verus! {

/// An event arrived in an order that the stroke state machine does not accept.
#[derive(Debug, Clone, Copy, PartialEq, Eq, Structural)]
pub enum ElementOrderError {
    /// A `Down` arrived while a stroke was already in progress.
    UnexpectedDown,
    /// A `Move` arrived while no stroke was in progress.
    UnexpectedMove,
    /// An `Up` arrived while no stroke was in progress.
    UnexpectedUp,
}

/// Something is wrong with one input event.
#[derive(Debug, Clone, Copy, PartialEq, Eq, Structural)]
pub enum ElementError {
    /// The same event was sent twice.
    Duplicate,
    /// The event is older than the previous one.
    NegativeTimeDelta,
    /// The event is out of order with respect to the stroke state.
    Order { src: ElementOrderError },
    /// The event is too far in time from the previous one.
    TooFarApart,
}

/// Every error that the modeler reports.
#[derive(Debug, Clone, PartialEq, Eq)]
pub enum ModelerError {
    /// An input event was rejected.
    Element { src: ElementError },
    /// The parameters are invalid; the message lists every failing rule.
    ParamInvalid { message: String },
    /// A prediction was asked for while no stroke was in progress.
    NoStrokeInProgress,
}

pub open spec fn order_error_text(e: ElementOrderError) -> Seq<char> {
    match e {
        ElementOrderError::UnexpectedDown => "Down Event is not the first or occured after a different event"@,
        ElementOrderError::UnexpectedMove => "Move event occured before a initial down event"@,
        ElementOrderError::UnexpectedUp => "No other event occured before an up event"@,
    }
}

pub open spec fn element_error_text(e: ElementError) -> Seq<char> {
    match e {
        ElementError::Duplicate => "A duplicate element is sent to the modeler"@,
        ElementError::NegativeTimeDelta => "A sent element has a time earlier than the previous one"@,
        ElementError::Order { .. } => "Sent element order is incorrect"@,
        ElementError::TooFarApart => "Sent element's time is too far apart from the previous one."@,
    }
}

pub open spec fn modeler_error_text(e: ModelerError) -> Seq<char> {
    match e {
        ModelerError::Element { .. } => "Input element error"@,
        ModelerError::ParamInvalid { message } => message@,
        ModelerError::NoStrokeInProgress => "No stroke is in progress"@,
    }
}

impl ElementOrderError {
    /// Human-readable description of the error.
    pub fn message(&self) -> (r: String)
        ensures
            r@ == order_error_text(*self),
    {
        match self {
            ElementOrderError::UnexpectedDown => String::from_str(
                "Down Event is not the first or occured after a different event",
            ),
            ElementOrderError::UnexpectedMove => String::from_str(
                "Move event occured before a initial down event",
            ),
            ElementOrderError::UnexpectedUp => String::from_str(
                "No other event occured before an up event",
            ),
        }
    }
}

impl ElementError {
    /// Human-readable description of the error.
    pub fn message(&self) -> (r: String)
        ensures
            r@ == element_error_text(*self),
    {
        match self {
            ElementError::Duplicate => String::from_str("A duplicate element is sent to the modeler"),
            ElementError::NegativeTimeDelta => String::from_str(
                "A sent element has a time earlier than the previous one",
            ),
            ElementError::Order { .. } => String::from_str("Sent element order is incorrect"),
            ElementError::TooFarApart => String::from_str(
                "Sent element's time is too far apart from the previous one.",
            ),
        }
    }
}

impl ModelerError {
    /// Human-readable description of the error.
    pub fn message(&self) -> (r: String)
        ensures
            r@ == modeler_error_text(*self),
    {
        match self {
            ModelerError::Element { .. } => String::from_str("Input element error"),
            ModelerError::ParamInvalid { message } => message.clone(),
            ModelerError::NoStrokeInProgress => String::from_str("No stroke is in progress"),
        }
    }
}

impl From<ElementOrderError> for ElementError {
    fn from(src: ElementOrderError) -> (r: ElementError)
        ensures
            r == (ElementError::Order { src }),
    {
        ElementError::Order { src }
    }
}

impl vstd::std_specs::convert::FromSpecImpl<ElementOrderError> for ElementError {
    open spec fn obeys_from_spec() -> bool {
        true
    }

    open spec fn from_spec(src: ElementOrderError) -> ElementError {
        ElementError::Order { src }
    }
}

impl From<ElementError> for ModelerError {
    fn from(src: ElementError) -> (r: ModelerError)
        ensures
            r == (ModelerError::Element { src }),
    {
        ModelerError::Element { src }
    }
}

impl vstd::std_specs::convert::FromSpecImpl<ElementError> for ModelerError {
    open spec fn obeys_from_spec() -> bool {
        true
    }

    open spec fn from_spec(src: ElementError) -> ModelerError {
        ModelerError::Element { src }
    }
}

impl From<ElementOrderError> for ModelerError {
    fn from(src: ElementOrderError) -> (r: ModelerError)
        ensures
            r == (ModelerError::Element { src: ElementError::Order { src } }),
    {
        ModelerError::Element { src: ElementError::Order { src } }
    }
}

impl vstd::std_specs::convert::FromSpecImpl<ElementOrderError> for ModelerError {
    open spec fn obeys_from_spec() -> bool {
        true
    }

    open spec fn from_spec(src: ElementOrderError) -> ModelerError {
        ModelerError::Element { src: ElementError::Order { src } }
    }
}

} // verus!
