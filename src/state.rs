//! The application state shared by the request handlers.
use vstd::prelude::*;

verus! {

/// Application state; it holds nothing yet.
#[derive(Debug, Clone, Copy, Default)]
pub struct State {}

} // verus!
