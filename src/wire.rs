use vstd::prelude::*;

verus! {

/// Digits of the hexadecimal rendering, by value.
pub open spec fn hex_char(d: int) -> char {
    seq!['0', '1', '2', '3', '4', '5', '6', '7', '8', '9', 'A', 'B', 'C', 'D', 'E', 'F'][d]
}

/// Two uppercase hexadecimal digits of a byte.
pub open spec fn hex_pair(b: u8) -> Seq<char> {
    seq![hex_char(b as int / 16), hex_char(b as int % 16)]
}

/// The hexadecimal pairs of the first `n` bytes of `m`, joined by colons.
pub open spec fn hex_joined(m: Seq<u8>, n: nat) -> Seq<char>
    decreases n,
{
    if n == 0 {
        Seq::empty()
    } else if n == 1 {
        hex_pair(m[0])
    } else {
        hex_joined(m, (n - 1) as nat) + seq![':'] + hex_pair(m[n - 1])
    }
}

/// Text of a MAC address: six uppercase hexadecimal pairs joined by colons.
pub open spec fn mac_text(m: Seq<u8>) -> Seq<char> {
    hex_joined(m, 6)
}

/// Decimal digit of a value below ten.
pub open spec fn dec_char(d: int) -> char {
    hex_char(d)
}

/// Decimal text of a byte, without leading zeros.
pub open spec fn dec_text(n: u8) -> Seq<char> {
    if n >= 100 {
        seq![dec_char(n as int / 100), dec_char((n as int / 10) % 10), dec_char(n as int % 10)]
    } else if n >= 10 {
        seq![dec_char(n as int / 10), dec_char(n as int % 10)]
    } else {
        seq![dec_char(n as int)]
    }
}

/// Dotted-decimal text of an IPv4 address.
pub open spec fn ipv4_text(a: Seq<u8>) -> Seq<char> {
    dec_text(a[0]) + seq!['.'] + dec_text(a[1]) + seq!['.'] + dec_text(a[2]) + seq!['.']
        + dec_text(a[3])
}

/// The one-character text of digit `d` (below sixteen).
fn digit_str(d: u8) -> (r: &'static str)
    requires
        d < 16,
    ensures
        r@ == seq![hex_char(d as int)],
{
    let digits = "0123456789ABCDEF";
    proof {
        reveal_strlit("0123456789ABCDEF");
    }
    let r = digits.substring_char(d as usize, d as usize + 1);
    assert(r@ =~= seq![hex_char(d as int)]);
    r
}

/// Appends the two hexadecimal digits of `b` to `out`.
fn push_hex_pair(out: &mut String, b: u8)
    ensures
        final(out)@ == old(out)@ + hex_pair(b),
{
    out.append(digit_str(b / 16));
    out.append(digit_str(b % 16));
    assert(final(out)@ =~= old(out)@ + hex_pair(b));
}

/// Appends the decimal text of `n` to `out`.
fn push_dec(out: &mut String, n: u8)
    ensures
        final(out)@ == old(out)@ + dec_text(n),
{
    if n >= 100 {
        out.append(digit_str(n / 100));
        out.append(digit_str((n / 10) % 10));
        out.append(digit_str(n % 10));
    } else if n >= 10 {
        out.append(digit_str(n / 10));
        out.append(digit_str(n % 10));
    } else {
        out.append(digit_str(n));
    }
    assert(final(out)@ =~= old(out)@ + dec_text(n));
}

/// A MAC address, its six bytes in the order received.
#[derive(Debug, Clone, Copy, PartialEq, Eq)]
pub struct MACAddr(pub [u8; 6]);

impl View for MACAddr {
    type V = Seq<u8>;

    open spec fn view(&self) -> Seq<u8> {
        self.0@
    }
}

impl MACAddr {
    /// The address held in the first six bytes of `b`.
    pub fn from_bytes(b: &[u8]) -> (r: MACAddr)
        requires
            b@.len() >= 6,
        ensures
            r@ == b@.subrange(0, 6),
    {
        let r = MACAddr([b[0], b[1], b[2], b[3], b[4], b[5]]);
        assert(r@ =~= b@.subrange(0, 6));
        r
    }

    /// Six uppercase hexadecimal byte pairs, colon separated.
    pub fn to_string(&self) -> (r: String)
        ensures
            r@ == mac_text(self@),
    {
        let mut out = String::new();
        let mut i: usize = 0;
        while i < 6
            invariant
                i <= 6,
                self@.len() == 6,
                out@ == hex_joined(self@, i as nat),
            decreases 6 - i,
        {
            if i > 0 {
                out.append(":");
                proof {
                    reveal_strlit(":");
                }
            }
            push_hex_pair(&mut out, self.0[i]);
            i = i + 1;
            assert(out@ =~= hex_joined(self@, i as nat));
        }
        out
    }
}

/// An IPv4 address, its four bytes in network order.
#[derive(Debug, Clone, Copy, PartialEq, Eq)]
pub struct IPv4Addr(pub [u8; 4]);

impl View for IPv4Addr {
    type V = Seq<u8>;

    open spec fn view(&self) -> Seq<u8> {
        self.0@
    }
}

impl IPv4Addr {
    /// The address held in the first four bytes of `b`.
    pub fn from_bytes(b: &[u8]) -> (r: IPv4Addr)
        requires
            b@.len() >= 4,
        ensures
            r@ == b@.subrange(0, 4),
    {
        let r = IPv4Addr([b[0], b[1], b[2], b[3]]);
        assert(r@ =~= b@.subrange(0, 4));
        r
    }

    /// Dotted-decimal text.
    pub fn to_string(&self) -> (r: String)
        ensures
            r@ == ipv4_text(self@),
    {
        let mut out = String::new();
        proof {
            reveal_strlit(".");
        }
        push_dec(&mut out, self.0[0]);
        out.append(".");
        push_dec(&mut out, self.0[1]);
        out.append(".");
        push_dec(&mut out, self.0[2]);
        out.append(".");
        push_dec(&mut out, self.0[3]);
        assert(out@ =~= ipv4_text(self@));
        out
    }
}

/// Text of an ARP opcode: its symbolic name where it has one, else its two bytes
/// as a bracketed decimal pair.
pub open spec fn op_text(o: Seq<u8>) -> Seq<char> {
    if o == seq![0u8, 1u8] {
        "RequestARP"@
    } else if o == seq![0u8, 2u8] {
        "ReplyARP"@
    } else if o == seq![0u8, 3u8] {
        "RequestRARP"@
    } else if o == seq![0u8, 4u8] {
        "ReplyRARP"@
    } else {
        "["@ + dec_text(o[0]) + ", "@ + dec_text(o[1]) + "]"@
    }
}

/// An ARP opcode, its two bytes big-endian.
#[derive(Debug, Clone, Copy, PartialEq, Eq)]
pub struct Op(pub [u8; 2]);

impl View for Op {
    type V = Seq<u8>;

    open spec fn view(&self) -> Seq<u8> {
        self.0@
    }
}

impl Op {
    /// The opcode held in the first two bytes of `b`.
    pub fn from_bytes(b: &[u8]) -> (r: Op)
        requires
            b@.len() >= 2,
        ensures
            r@ == b@.subrange(0, 2),
    {
        let r = Op([b[0], b[1]]);
        assert(r@ =~= b@.subrange(0, 2));
        r
    }

    /// The symbolic name of a known opcode, or its raw byte pair.
    pub fn to_string(&self) -> (r: String)
        ensures
            r@ == op_text(self@),
    {
        let hi = self.0[0];
        let lo = self.0[1];
        assert(self@ == seq![hi, lo]) by {
            assert(self@ =~= seq![hi, lo]);
        }
        if hi == 0 && lo == 1 {
            String::from_str("RequestARP")
        } else if hi == 0 && lo == 2 {
            String::from_str("ReplyARP")
        } else if hi == 0 && lo == 3 {
            String::from_str("RequestRARP")
        } else if hi == 0 && lo == 4 {
            String::from_str("ReplyRARP")
        } else {
            assert(self@ != seq![0u8, 1u8] && self@ != seq![0u8, 2u8]) by {
                if self@ == seq![0u8, 1u8] || self@ == seq![0u8, 2u8] {
                    assert(self@[0] == hi && self@[1] == lo);
                }
            }
            assert(self@ != seq![0u8, 3u8] && self@ != seq![0u8, 4u8]) by {
                if self@ == seq![0u8, 3u8] || self@ == seq![0u8, 4u8] {
                    assert(self@[0] == hi && self@[1] == lo);
                }
            }
            let mut out = String::from_str("[");
            push_dec(&mut out, hi);
            out.append(", ");
            push_dec(&mut out, lo);
            out.append("]");
            out
        }
    }
}

} // verus!
