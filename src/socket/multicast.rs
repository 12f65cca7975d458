//! Multicast group membership requests.
use vstd::prelude::*;

use crate::socket::addr::InetAddr;
use crate::{NixError, NixResult};

verus! {

/// The kernel's IPv4 multicast membership request: the group and the local
/// interface, each as an address in network byte order.
#[allow(non_camel_case_types)]
#[derive(Clone, Copy, Debug, PartialEq, Eq, Hash)]
pub struct ip_mreq {
    pub imr_multiaddr: [u8; 4],
    pub imr_interface: [u8; 4],
}

impl ip_mreq {
    /// A request to join `group` on `interface`, or on any interface when
    /// none is given. Both must be IPv4 addresses.
    pub fn new(group: &InetAddr, interface: Option<&InetAddr>) -> (r: NixResult<ip_mreq>)
        ensures
            group is V6 ==> r == Err::<ip_mreq, NixError>(NixError::Sys(crate::errno::EINVAL)),
            interface is Some && interface->0 is V6 ==> r == Err::<ip_mreq, NixError>(
                NixError::Sys(crate::errno::EINVAL),
            ),
            group is V4 && interface is None ==> r is Ok && r->Ok_0.imr_multiaddr@
                == group.spec_addr_bytes() && r->Ok_0.imr_interface@ == seq![0u8, 0u8, 0u8, 0u8],
            group is V4 && interface is Some && interface->0 is V4 ==> r is Ok
                && r->Ok_0.imr_multiaddr@ == group.spec_addr_bytes() && r->Ok_0.imr_interface@
                == interface->0.spec_addr_bytes(),
    {
        let group = match group {
            InetAddr::V4(g) => g.sin_addr(),
            InetAddr::V6(..) => return Err(NixError::invalid_argument()),
        };
        let interface = match interface {
            Some(InetAddr::V4(i)) => i.sin_addr(),
            Some(InetAddr::V6(..)) => return Err(NixError::invalid_argument()),
            None => [0u8, 0u8, 0u8, 0u8],
        };
        let r = ip_mreq { imr_multiaddr: group, imr_interface: interface };
        assert(r.imr_interface@ == interface@);
        Ok(r)
    }
}

} // verus!
