use vstd::prelude::*;

verus! {

/// Big-endian reading of a two-byte field.
pub open spec fn be16(hi: u8, lo: u8) -> int {
    hi as int * 256 + lo as int
}

/// Reads the first two bytes of `bytes` as a big-endian 16-bit value.
pub fn u8_as_u16(bytes: &[u8]) -> (r: u16)
    requires
        bytes@.len() >= 2,
    ensures
        r as int == be16(bytes@[0], bytes@[1]),
{
    let hi = bytes[0];
    let lo = bytes[1];
    let r: u16 = ((hi as u16) << 8) | (lo as u16);
    assert(r == (hi as u16) * 256 + (lo as u16)) by (bit_vector)
        requires
            r == ((hi as u16) << 8) | (lo as u16),
    ;
    r
}

/// EtherType value of IPv4.
pub const ETHERTYPE_IPV4: u16 = 0x0800;

/// EtherType value of ARP.
pub const ETHERTYPE_ARP: u16 = 0x0806;

/// EtherType value of IPv6.
pub const ETHERTYPE_IPV6: u16 = 0x86DD;

/// The protocols a frame is told apart by; any other value is kept as it came.
#[derive(Debug, Clone, Copy, PartialEq, Eq, Structural)]
pub enum EtherType {
    IPv4,
    IPv6,
    ARP,
    Other(u16),
}

/// The tag of a 16-bit EtherType value.
pub open spec fn classify(t: u16) -> EtherType {
    if t == ETHERTYPE_IPV4 {
        EtherType::IPv4
    } else if t == ETHERTYPE_ARP {
        EtherType::ARP
    } else if t == ETHERTYPE_IPV6 {
        EtherType::IPv6
    } else {
        EtherType::Other(t)
    }
}

impl EtherType {
    /// Classifies a 16-bit EtherType value; total over all values.
    pub fn from(t: u16) -> (r: EtherType)
        ensures
            r == classify(t),
            t == ETHERTYPE_IPV4 <==> r == EtherType::IPv4,
            t == ETHERTYPE_ARP <==> r == EtherType::ARP,
            t == ETHERTYPE_IPV6 <==> r == EtherType::IPv6,
            (t != ETHERTYPE_IPV4 && t != ETHERTYPE_ARP && t != ETHERTYPE_IPV6) <==> r
                == EtherType::Other(t),
    {
        if t == ETHERTYPE_IPV4 {
            EtherType::IPv4
        } else if t == ETHERTYPE_ARP {
            EtherType::ARP
        } else if t == ETHERTYPE_IPV6 {
            EtherType::IPv6
        } else {
            EtherType::Other(t)
        }
    }
}

/// The tag of a two-byte big-endian protocol field.
pub open spec fn classify_field(hi: u8, lo: u8) -> EtherType {
    classify(be16(hi, lo) as u16)
}

/// Classifying the same two-byte field twice yields the same tag: any two
/// readings of the field (as `u8_as_u16` returns them) classify alike.
pub proof fn lemma_classify_idempotent(field: Seq<u8>, first: u16, second: u16)
    requires
        field.len() == 2,
        first as int == be16(field[0], field[1]),
        second as int == be16(field[0], field[1]),
    ensures
        classify(first) == classify(second),
{
}

} // verus!
