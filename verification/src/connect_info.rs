//! What a hosting framework learns of a connection.

use vstd::prelude::*;
use crate::addr::VsockAddr;
use crate::error::IoError;
use crate::stream::VsockStream;

verus! {

/// Connection information of a stream: the address of the remote endpoint,
/// where the descriptor has one.
#[derive(Debug, Eq, PartialEq)]
pub struct VsockConnectInfo {
    peer_addr: Option<VsockAddr>,
}

impl View for VsockConnectInfo {
    type V = Option<VsockAddr>;

    /// The address of the remote endpoint, if it is known.
    closed spec fn view(&self) -> Option<VsockAddr> {
        self.peer_addr
    }
}

impl Clone for VsockConnectInfo {
    /// A copy with the same address of the remote endpoint.
    fn clone(&self) -> (copy: Self)
        ensures
            copy == *self,
            copy@ == self@,
    {
        VsockConnectInfo { peer_addr: self.peer_addr }
    }
}

impl VsockConnectInfo {
    /// The remote address that the stream is connected to.
    pub fn peer_addr(&self) -> (addr: Option<VsockAddr>)
        ensures
            addr == self@,
    {
        self.peer_addr
    }
}

impl VsockStream {
    /// The connection information of this stream, taken from nothing but
    /// the result of asking for the address of the remote endpoint: the
    /// address where the query gave one, and none where it failed.
    pub fn connect_info(&self, peer_addr: Result<VsockAddr, IoError>) -> (info: VsockConnectInfo)
        ensures
            info@ == match peer_addr {
                Ok(addr) => Some(addr),
                Err(_) => None,
            },
    {
        VsockConnectInfo {
            peer_addr: match peer_addr {
                Ok(addr) => Some(addr),
                Err(_) => None,
            },
        }
    }
}

} // verus!
