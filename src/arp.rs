use vstd::prelude::*;

use crate::wire::{ipv4_text, mac_text, op_text, IPv4Addr, MACAddr, Op};

verus! {

/// Width of an ARP payload for Ethernet and IPv4.
pub const ARP_HEADER_LEN: usize = 28;

/// The fields of an ARP payload, read from a byte window.
#[derive(Debug, Clone, Copy, PartialEq, Eq)]
pub struct ARPHeader {
    pub hw_type: [u8; 2],
    pub pt_type: [u8; 2],
    pub hw_length: u8,
    pub pt_length: u8,
    pub op_code: Op,
    pub smac: MACAddr,
    pub sip: IPv4Addr,
    pub dmac: MACAddr,
    pub dip: IPv4Addr,
}

/// Whether `h` holds the fields laid out in the first 28 bytes of `d`: hardware
/// type, protocol type, the two address lengths, opcode, sender MAC, sender IP,
/// target MAC and target IP.
pub open spec fn reads_from(h: ARPHeader, d: Seq<u8>) -> bool {
    &&& d.len() >= 28
    &&& h.hw_type@ == d.subrange(0, 2)
    &&& h.pt_type@ == d.subrange(2, 4)
    &&& h.hw_length == d[4]
    &&& h.pt_length == d[5]
    &&& h.op_code@ == d.subrange(6, 8)
    &&& h.smac@ == d.subrange(8, 14)
    &&& h.sip@ == d.subrange(14, 18)
    &&& h.dmac@ == d.subrange(18, 24)
    &&& h.dip@ == d.subrange(24, 28)
}

/// Text of a header: `(sender IP, sender MAC) === opcode ==> (target IP, target MAC)`.
pub open spec fn header_text(h: ARPHeader) -> Seq<char> {
    "("@ + ipv4_text(h.sip@) + ", "@ + mac_text(h.smac@) + ") === "@ + op_text(h.op_code@)
        + " ==> ("@ + ipv4_text(h.dip@) + ", "@ + mac_text(h.dmac@) + ")"@
}

impl ARPHeader {
    /// Reads the header from the first 28 bytes of `data`.
    pub fn from(data: &[u8]) -> (r: ARPHeader)
        requires
            data@.len() >= ARP_HEADER_LEN,
        ensures
            reads_from(r, data@),
    {
        let s = data;
        let hw_type = [s[0], s[1]];
        let pt_type = [s[2], s[3]];
        let op_code = Op::from_bytes(&s[6..8]);
        let smac = MACAddr::from_bytes(&s[8..14]);
        let sip = IPv4Addr::from_bytes(&s[14..18]);
        let dmac = MACAddr::from_bytes(&s[18..24]);
        let dip = IPv4Addr::from_bytes(&s[24..28]);
        assert(hw_type@ =~= s@.subrange(0, 2));
        assert(pt_type@ =~= s@.subrange(2, 4));
        assert(op_code@ =~= s@.subrange(6, 8));
        assert(smac@ =~= s@.subrange(8, 14));
        assert(sip@ =~= s@.subrange(14, 18));
        assert(dmac@ =~= s@.subrange(18, 24));
        assert(dip@ =~= s@.subrange(24, 28));
        ARPHeader {
            hw_type,
            pt_type,
            hw_length: s[4],
            pt_length: s[5],
            op_code,
            smac,
            sip,
            dmac,
            dip,
        }
    }

    /// Reads the header where `data` holds one; `None` for fewer than 28 bytes.
    pub fn try_from(data: &[u8]) -> (r: Option<ARPHeader>)
        ensures
            r is None <==> data@.len() < ARP_HEADER_LEN,
            r is Some ==> reads_from(r->Some_0, data@),
    {
        if data.len() < ARP_HEADER_LEN {
            None
        } else {
            Some(ARPHeader::from(data))
        }
    }

    /// Sender and target addresses around the opcode.
    pub fn to_string(&self) -> (r: String)
        ensures
            r@ == header_text(*self),
    {
        let mut out = String::from_str("(");
        out.append(self.sip.to_string().as_str());
        out.append(", ");
        out.append(self.smac.to_string().as_str());
        out.append(") === ");
        out.append(self.op_code.to_string().as_str());
        out.append(" ==> (");
        out.append(self.dip.to_string().as_str());
        out.append(", ");
        out.append(self.dmac.to_string().as_str());
        out.append(")");
        out
    }
}

} // verus!
