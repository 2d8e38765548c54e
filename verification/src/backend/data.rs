use vstd::prelude::*;

verus! {

use crate::backend::Data;
use crate::widget::StyledPathList;

/// Payloads the application receives from the server worker; none are
/// defined yet.
#[derive(Debug)]
pub enum Server {
    /// No server messages are defined yet; this placeholder is never sent.
    Unused,
}

/// Payloads the application receives from the interface worker.
#[derive(Debug)]
pub enum Ui {
    FilePathList(StyledPathList),
}

impl Data for Server {

}

impl Data for Ui {

}

} // verus!
