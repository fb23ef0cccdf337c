//! The remote control of the directory server.

use crate::market::directory::DirectoryServer;
use vstd::prelude::*;

verus! {

/// Requests that the directory server answers.
#[derive(Debug, Clone, Copy, PartialEq, Eq, Structural)]
pub enum RpcMsgReq {
    /// All known addresses.
    ListAddresses,
}

/// Answers of the directory server.
#[derive(Debug)]
pub enum RpcMsgResp {
    /// The known addresses.
    ListAddressesResp(Vec<String>),
}

/// What an answer lists.
pub open spec fn listed(response: RpcMsgResp) -> Seq<Seq<char>> {
    match response {
        RpcMsgResp::ListAddressesResp(addresses) => addresses@.map_values(|a: String| a@),
    }
}

/// Answers a request.
pub fn handle_request(request: RpcMsgReq, directory: &DirectoryServer) -> (r: RpcMsgResp)
    ensures
        listed(r) == directory.listing(),
{
    match request {
        RpcMsgReq::ListAddresses => {
            let addresses = directory.list_addresses();
            RpcMsgResp::ListAddressesResp(addresses)
        },
    }
}

} // verus!
