//! A minimal ARP responder's core: the layout of link-layer frames read from a
//! virtual interface, their classification by EtherType, and the in-place
//! transformation that turns an ARP request into its reply.

use vstd::prelude::*;

pub mod arp;
pub mod ethertype;
pub mod responder;
pub mod wire;

verus! {

} // verus!
