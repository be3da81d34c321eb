//! The actions a terminal application reacts to.

use vstd::prelude::*;

verus! {

/// An action requested of the application.
#[derive(Clone, Debug, PartialEq, Eq)]
pub enum Action {
    Tick,
    Render,
    Resize(u16, u16),
    Suspend,
    Resume,
    Quit,
    Refresh,
    Error(String),
    Help,
    Version,
    AppAction(String),
    Key(String),
}

} // verus!
