//! A minimal counter record manager: one persistent record holding a count
//! and the identity allowed to change it, with five operations (initialize,
//! increment, decrement, set, close) guarded by ownership checks and
//! bounds-checked arithmetic.

pub mod error;
pub mod laws;
pub mod program;
pub mod state;
