use vstd::prelude::*;

verus! {

use crate::ui::AppState;
use crate::ui::Event;

/// Events the interface receives from the application worker.
#[derive(Debug)]
pub enum Backend {
    StateChange(AppState),
}

/// Events the interface receives from the server worker; none are defined
/// yet.
#[derive(Debug)]
pub enum Server {
    /// No server messages are defined yet; this placeholder is never sent.
    Unused,
}

impl Event for Backend {

}

impl Event for Server {

}

} // verus!
