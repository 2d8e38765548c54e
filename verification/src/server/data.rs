use vstd::prelude::*;

verus! {

use crate::server::Data;

/// Payloads the server sends to the application worker; none are defined
/// yet.
#[derive(Debug)]
pub enum Backend {
    /// No backend messages are defined yet; this placeholder is never sent.
    Unused,
}

/// Payloads the server sends to the interface worker; none are defined yet.
#[derive(Debug)]
pub enum Ui {
    /// No ui messages are defined yet; this placeholder is never sent.
    Unused,
}

impl Data for Backend {

}

impl Data for Ui {

}

} // verus!
