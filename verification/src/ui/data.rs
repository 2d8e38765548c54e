use vstd::prelude::*;

verus! {

use crate::server::IpAddress;
use crate::ui::Data;
use crate::widget::StyledPathList;

/// Payloads the interface receives from the application worker.
#[derive(Debug)]
pub enum Backend {
    FilePathList(StyledPathList),
}

/// Payloads the interface receives from the server worker.
#[derive(Debug)]
pub enum Server {
    ConnectionInfo {
        public_ip: Option<IpAddress>,
        external_port: Option<u16>,
        secret_key: String,
    },
}

impl Data for Backend {

}

impl Data for Server {

}

} // verus!
