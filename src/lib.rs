//! Verified core of a stroke modeler for pen and stylus input: the stroke state machine,
//! parameter validation, the bounded history of raw inputs used for pressure
//! interpolation, and the control of the end-of-stroke catch-up loop.

pub mod catch_up;
pub mod error;
pub mod history;
pub mod input;
pub mod stroke;
pub mod validation;
