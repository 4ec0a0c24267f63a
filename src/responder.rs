use vstd::prelude::*;

use crate::ethertype::{classify_field, u8_as_u16, EtherType};

verus! {

/// Length of the link-layer metadata prefix (interface flags and protocol id).
pub const PREFIX_LEN: usize = 4;

/// Offset of the two-byte protocol id inside the prefix.
pub const PROTO_OFFSET: usize = 2;

/// Offset of the Ethernet destination MAC.
pub const ETH_DST_OFFSET: usize = 4;

/// Offset of the Ethernet source MAC.
pub const ETH_SRC_OFFSET: usize = 10;

/// Offset of the ARP sender MAC.
pub const ARP_SENDER_MAC_OFFSET: usize = 26;

/// Offset of the ARP sender IP.
pub const ARP_SENDER_IP_OFFSET: usize = 32;

/// Offset of the ARP target MAC.
pub const ARP_TARGET_MAC_OFFSET: usize = 36;

/// Offset of the ARP target IP.
pub const ARP_TARGET_IP_OFFSET: usize = 42;

/// Offset of the low-order byte of the ARP target IP.
pub const ARP_TARGET_IP_LAST: usize = 45;

/// Width of a MAC address.
pub const MAC_LEN: usize = 6;

/// Width of an IPv4 address.
pub const IP_LEN: usize = 4;

/// Smallest frame that holds the prefix, the Ethernet header and an ARP payload.
pub const ARP_FRAME_LEN: usize = 46;

/// `s` with the `n` bytes at `a` and the `n` bytes at `b` exchanged.
pub open spec fn swapped(s: Seq<u8>, a: int, b: int, n: int) -> Seq<u8> {
    Seq::new(
        s.len(),
        |i: int|
            if a <= i < a + n {
                s[i + (b - a)]
            } else if b <= i < b + n {
                s[i - (b - a)]
            } else {
                s[i]
            },
    )
}

/// `s` with the `n` bytes at `a` set to `v`.
pub open spec fn filled(s: Seq<u8>, a: int, n: int, v: u8) -> Seq<u8> {
    Seq::new(s.len(), |i: int| if a <= i < a + n { v } else { s[i] })
}

/// The protocol tag of a frame, read from its prefix.
pub open spec fn frame_kind(s: Seq<u8>) -> EtherType {
    classify_field(s[2], s[3])
}

/// The reply that answers the ARP request held in `s`, byte by byte: the Ethernet
/// MACs exchanged, the ARP IPs exchanged, the old sender MAC as target MAC, and
/// the sender MAC made of six copies of the last byte of the old target IP.
pub open spec fn reply_frame(s: Seq<u8>) -> Seq<u8> {
    Seq::new(
        s.len(),
        |i: int|
            if 4 <= i < 10 {
                s[i + 6]
            } else if 10 <= i < 16 {
                s[i - 6]
            } else if 26 <= i < 32 {
                s[45]
            } else if 32 <= i < 36 {
                s[i + 10]
            } else if 36 <= i < 46 {
                s[i - 10]
            } else {
                s[i]
            },
    )
}

/// The reply is the request put through four steps in order: exchange the Ethernet
/// MACs, exchange the ARP IPs, exchange the ARP MACs, then fill the sender MAC with
/// the last byte of the request's target IP, read before any step.
pub proof fn lemma_reply_steps(s: Seq<u8>)
    requires
        s.len() >= ARP_FRAME_LEN,
    ensures
        reply_frame(s) == filled(
            swapped(swapped(swapped(s, 4, 10, 6), 32, 42, 4), 26, 36, 6),
            26,
            6,
            s[45],
        ),
{
    assert(reply_frame(s) =~= filled(
        swapped(swapped(swapped(s, 4, 10, 6), 32, 42, 4), 26, 36, 6),
        26,
        6,
        s[45],
    ));
}

/// Exchanges the `n` bytes at `a` with the `n` bytes at `b`, which lie after them.
pub fn swap_ranges(buf: &mut Vec<u8>, a: usize, b: usize, n: usize)
    requires
        a + n <= b,
        b + n <= old(buf)@.len(),
    ensures
        final(buf)@ == swapped(old(buf)@, a as int, b as int, n as int),
{
    let ghost start = buf@;
    let len = buf.len();
    let mut k: usize = 0;
    while k < n
        invariant
            buf@.len() == len,
            a + n <= b,
            b + n <= buf@.len(),
            k <= n,
            buf@.len() == start.len(),
            forall|i: int|
                0 <= i < buf@.len() ==> #[trigger] buf@[i] == (if a <= i < a + k {
                    start[i + (b - a)]
                } else if b <= i < b + k {
                    start[i - (b - a)]
                } else {
                    start[i]
                }),
        decreases n - k,
    {
        let x = buf[a + k];
        let y = buf[b + k];
        buf[a + k] = y;
        buf[b + k] = x;
        k = k + 1;
    }
    assert(buf@ =~= swapped(start, a as int, b as int, n as int));
}

/// Sets the `n` bytes at `a` to `v`.
pub fn fill_range(buf: &mut Vec<u8>, a: usize, n: usize, v: u8)
    requires
        a + n <= old(buf)@.len(),
    ensures
        final(buf)@ == filled(old(buf)@, a as int, n as int, v),
{
    let ghost start = buf@;
    let len = buf.len();
    let mut k: usize = 0;
    while k < n
        invariant
            buf@.len() == len,
            a + n <= buf@.len(),
            k <= n,
            buf@.len() == start.len(),
            forall|i: int|
                0 <= i < buf@.len() ==> #[trigger] buf@[i] == (if a <= i < a + k {
                    v
                } else {
                    start[i]
                }),
        decreases n - k,
    {
        buf[a + k] = v;
        k = k + 1;
    }
    assert(buf@ =~= filled(start, a as int, n as int, v));
}

/// Turns the ARP request held in `frame` into its reply, in place.
pub fn build_reply(frame: &mut Vec<u8>)
    requires
        old(frame)@.len() >= ARP_FRAME_LEN,
    ensures
        final(frame)@ == reply_frame(old(frame)@),
{
    let ghost s = frame@;
    let ip_last = frame[ARP_TARGET_IP_LAST];
    swap_ranges(frame, ETH_DST_OFFSET, ETH_SRC_OFFSET, MAC_LEN);
    swap_ranges(frame, ARP_SENDER_IP_OFFSET, ARP_TARGET_IP_OFFSET, IP_LEN);
    swap_ranges(frame, ARP_SENDER_MAC_OFFSET, ARP_TARGET_MAC_OFFSET, MAC_LEN);
    fill_range(frame, ARP_SENDER_MAC_OFFSET, MAC_LEN, ip_last);
    proof {
        lemma_reply_steps(s);
    }
}

/// What the responder did with a frame.
#[derive(Debug, Clone, Copy, PartialEq, Eq, Structural)]
pub enum Outcome {
    /// An IPv6 frame, discarded without a look.
    Ignored,
    /// An IPv4 or unrecognized frame: classified only, nothing sent.
    Observed(EtherType),
    /// An ARP request turned into a reply: the first `len` bytes of the frame are
    /// to be sent.
    Reply(usize),
}

/// Why a frame, or the sending of a reply, breaks the responder's assumptions.
#[derive(Debug, Clone, Copy, PartialEq, Eq, Structural)]
pub enum FrameError {
    /// The received size is larger than the buffer that holds the frame.
    SizeBeyondBuffer,
    /// The frame does not hold the link-layer metadata prefix.
    MissingPrefix,
    /// An ARP frame too short for the Ethernet header and the ARP payload.
    ShortArp,
    /// The interface accepted a different number of bytes than the reply holds.
    ShortSend,
}

/// Whether `handle` may be called on the first `size` bytes of a frame held in `s`.
pub open spec fn frame_ok(s: Seq<u8>, size: int) -> bool {
    &&& PREFIX_LEN <= size <= s.len()
    &&& frame_kind(s) == EtherType::ARP ==> size >= ARP_FRAME_LEN
}

/// Checks the received `size` against the frame's demands and returns its tag.
pub fn validate(frame: &Vec<u8>, size: usize) -> (r: Result<EtherType, FrameError>)
    ensures
        size > frame@.len() <==> r == Err::<EtherType, FrameError>(FrameError::SizeBeyondBuffer),
        size <= frame@.len() && size < PREFIX_LEN <==> r == Err::<EtherType, FrameError>(
            FrameError::MissingPrefix,
        ),
        PREFIX_LEN <= size <= frame@.len() && frame_kind(frame@) == EtherType::ARP && size
            < ARP_FRAME_LEN <==> r == Err::<EtherType, FrameError>(FrameError::ShortArp),
        r is Ok <==> frame_ok(frame@, size as int),
        r is Ok ==> r->Ok_0 == frame_kind(frame@),
{
    if size > frame.len() {
        return Err(FrameError::SizeBeyondBuffer);
    }
    if size < PREFIX_LEN {
        return Err(FrameError::MissingPrefix);
    }
    let kind = EtherType::from(u8_as_u16(&frame.as_slice()[PROTO_OFFSET..PREFIX_LEN]));
    if kind == EtherType::ARP && size < ARP_FRAME_LEN {
        return Err(FrameError::ShortArp);
    }
    Ok(kind)
}

/// Handles the first `size` bytes of a received frame: an ARP request becomes its
/// reply in place, to be sent whole; any other frame is left as it is.
pub fn handle(frame: &mut Vec<u8>, size: usize) -> (r: Outcome)
    requires
        frame_ok(old(frame)@, size as int),
    ensures
        frame_kind(old(frame)@) == EtherType::ARP ==> r == Outcome::Reply(size),
        frame_kind(old(frame)@) == EtherType::ARP ==> final(frame)@ == reply_frame(old(frame)@),
        frame_kind(old(frame)@) == EtherType::IPv6 ==> r == Outcome::Ignored,
        frame_kind(old(frame)@) != EtherType::ARP && frame_kind(old(frame)@) != EtherType::IPv6
            ==> r == Outcome::Observed(frame_kind(old(frame)@)),
        frame_kind(old(frame)@) != EtherType::ARP ==> final(frame)@ == old(frame)@,
        r is Reply <==> frame_kind(old(frame)@) == EtherType::ARP,
{
    let kind = EtherType::from(u8_as_u16(&frame.as_slice()[PROTO_OFFSET..PREFIX_LEN]));
    match kind {
        EtherType::IPv6 => Outcome::Ignored,
        EtherType::ARP => {
            build_reply(frame);
            Outcome::Reply(size)
        },
        _ => Outcome::Observed(kind),
    }
}

/// Checks that the interface accepted the whole reply of `expected` bytes.
pub fn check_sent(expected: usize, sent: usize) -> (r: Result<(), FrameError>)
    ensures
        r is Ok <==> sent == expected,
        r is Err ==> r == Err::<(), FrameError>(FrameError::ShortSend),
{
    if sent == expected {
        Ok(())
    } else {
        Err(FrameError::ShortSend)
    }
}

} // verus!
