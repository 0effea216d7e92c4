//! Endpoint addresses of the vsock address family.

use vstd::prelude::*;
use crate::error::{ErrorKind, IoError};

verus! {

/// Context id that stands for any address of the machine that binds.
pub const VMADDR_CID_ANY: u32 = 0xFFFF_FFFF;

/// Context id of the hypervisor.
pub const VMADDR_CID_HYPERVISOR: u32 = 0;

/// Context id for loopback communication inside one machine.
pub const VMADDR_CID_LOCAL: u32 = 1;

/// Context id of the host.
pub const VMADDR_CID_HOST: u32 = 2;

/// An endpoint: a context id and a port.
#[derive(Clone, Copy, Debug, PartialEq, Eq, Hash, Structural)]
pub struct VsockAddr {
    pub cid: u32,
    pub port: u32,
}

impl VsockAddr {
    /// The address with the given context id and port.
    pub fn new(cid: u32, port: u32) -> (addr: Self)
        ensures
            addr == (VsockAddr { cid, port }),
    {
        VsockAddr { cid, port }
    }

    /// The context id of this address.
    pub fn cid(&self) -> (cid: u32)
        ensures
            cid == self.cid,
    {
        self.cid
    }

    /// The port of this address.
    pub fn port(&self) -> (port: u32)
        ensures
            port == self.port,
    {
        self.port
    }
}

/// A socket address as a caller hands it in: one of the vsock family, or
/// one of another address family.
#[derive(Clone, Copy, Debug, PartialEq, Eq, Hash)]
pub enum SockAddr {
    /// An address of the vsock family.
    Vsock(VsockAddr),
    /// An address of any other family.
    Other,
}

impl SockAddr {
    /// The vsock endpoint that the address names, if it names one.
    pub open spec fn endpoint(self) -> Option<VsockAddr> {
        match self {
            SockAddr::Vsock(addr) => Some(addr),
            SockAddr::Other => None,
        }
    }

    /// Validates the address as a vsock endpoint. An address of another
    /// family is malformed input: it is refused with `InvalidInput` before
    /// any socket is created.
    pub fn vsock_addr(&self) -> (r: Result<VsockAddr, IoError>)
        ensures
            r == match self.endpoint() {
                Some(addr) => Ok::<VsockAddr, IoError>(addr),
                None => Err::<VsockAddr, IoError>(
                    IoError { kind: ErrorKind::InvalidInput, code: None },
                ),
            },
    {
        match self {
            SockAddr::Vsock(addr) => Ok(*addr),
            SockAddr::Other => Err(IoError::new(ErrorKind::InvalidInput)),
        }
    }
}

} // verus!
