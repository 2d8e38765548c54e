use vstd::prelude::*;

verus! {

use crate::backend::Event;

/// Events the application receives from the server worker; none are defined
/// yet.
#[derive(Debug)]
pub enum Server {
    /// No server messages are defined yet; this placeholder is never sent.
    Unused,
}

/// Events the application receives from the interface worker.
#[derive(Debug)]
pub enum Ui {
    Selection(usize),
}

impl Event for Server {

}

impl Event for Ui {

}

} // verus!
