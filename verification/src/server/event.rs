use vstd::prelude::*;

verus! {

use crate::server::Event;

/// Events the server sends to the application worker; none are defined yet.
#[derive(Debug)]
pub enum Backend {
    /// No backend messages are defined yet; this placeholder is never sent.
    Unused,
}

/// Events the server sends to the interface worker; none are defined yet.
#[derive(Debug)]
pub enum Ui {
    /// No ui messages are defined yet; this placeholder is never sent.
    Unused,
}

impl Event for Backend {

}

impl Event for Ui {

}

} // verus!
