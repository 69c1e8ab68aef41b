use vstd::prelude::*;

pub mod api;
pub mod capabilities;
pub mod json;
pub mod menu;
pub mod text;
pub mod weather;

verus! {

/// The failures an action can report instead of aborting the process.
#[derive(Clone, Copy, Debug, PartialEq, Eq, Structural)]
pub enum AppError {
    /// Reading an answer from the input source failed.
    InputFailed,
    /// The text at hand is not a valid JSON document.
    InvalidJson,
    /// The query client could not produce a response body.
    FetchFailed,
    /// A response body could not be rendered at the display width at hand.
    RenderFailed,
}

} // verus!
