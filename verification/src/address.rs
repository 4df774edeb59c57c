//! Network endpoints as plain numbers.

use vstd::prelude::*;
use vstd::string::StringExecFns;

use crate::codec::ints::{be_bytes, lemma_be_bytes_len, push_be};
use crate::text::{decimal, hexadecimal, push_decimal, push_hexadecimal};

verus! {

/// An IP address: the 32 bits of an IPv4 address or the 128 bits of an IPv6
/// address, each read as one big-endian number.
#[derive(Clone, Copy, Debug, PartialEq, Eq, Structural)]
pub enum IpAddress {
    V4(u32),
    V6(u128),
}

/// The IPv6 addresses `::ffff:0:0/96` stand for the IPv4 addresses.
pub const IPV4_MAPPED_PREFIX: u128 = 0xffff_0000_0000;

impl IpAddress {
    /// The IPv4 address `a.b.c.d` as a number.
    pub open spec fn v4_bits(a: u8, b: u8, c: u8, d: u8) -> u32 {
        (a as int * 0x100_0000 + b as int * 0x1_0000 + c as int * 0x100 + d as int) as u32
    }

    /// The IPv4 address `a.b.c.d`.
    pub fn v4(a: u8, b: u8, c: u8, d: u8) -> (ip: IpAddress)
        ensures
            ip == IpAddress::V4(Self::v4_bits(a, b, c, d)),
    {
        let bits: u32 = a as u32 * 0x100_0000 + b as u32 * 0x1_0000 + c as u32 * 0x100 + d as u32;
        IpAddress::V4(bits)
    }

    /// The address as 128 bits; an IPv4 address is mapped into `::ffff:0:0/96`.
    pub open spec fn mapped(self) -> u128 {
        match self {
            IpAddress::V4(bits) => (IPV4_MAPPED_PREFIX + bits) as u128,
            IpAddress::V6(bits) => bits,
        }
    }

    /// The address as 128 bits; an IPv4 address is mapped into `::ffff:0:0/96`.
    pub fn to_ipv6_mapped(&self) -> (bits: u128)
        ensures
            bits == self.mapped(),
    {
        match self {
            IpAddress::V4(bits) => IPV4_MAPPED_PREFIX + *bits as u128,
            IpAddress::V6(bits) => *bits,
        }
    }
}

/// The four numbers of an IPv4 address, in decimal, with dots between them.
pub open spec fn ipv4_text(bits: u32) -> Seq<char> {
    let octets = be_bytes(bits as nat, 4);
    decimal(octets[0] as nat) + "."@ + decimal(octets[1] as nat) + "."@ + decimal(
        octets[2] as nat,
    ) + "."@ + decimal(octets[3] as nat)
}

/// The eight 16-bit groups of an IPv6 address, first group first.
pub open spec fn segments(bits: u128) -> Seq<u16> {
    let bytes = be_bytes(bits as nat, 16);
    Seq::new(8, |i: int| (bytes[2 * i] as int * 256 + bytes[2 * i + 1] as int) as u16)
}

/// Whether the `len` groups from `start` on are all zero.
pub open spec fn zero_run(groups: Seq<u16>, start: int, len: int) -> bool {
    &&& 0 <= start
    &&& 0 <= len
    &&& start + len <= groups.len()
    &&& forall|i: int| start <= i < start + len ==> groups[i] == 0
}

/// Whether the `len` groups from `start` on are the longest run of zero
/// groups, and the first of that length.
pub open spec fn longest_zero_run(groups: Seq<u16>, start: int, len: int) -> bool {
    &&& zero_run(groups, start, len)
    &&& forall|a: int, n: int| #[trigger] zero_run(groups, a, n) ==> n <= len
    &&& forall|a: int| #[trigger] zero_run(groups, a, len) ==> start <= a
}

/// The groups in hexadecimal, with colons between them.
pub open spec fn joined(groups: Seq<u16>) -> Seq<char>
    decreases groups.len(),
{
    if groups.len() == 0 {
        Seq::empty()
    } else if groups.len() == 1 {
        hexadecimal(groups[0] as nat)
    } else {
        joined(groups.drop_last()) + ":"@ + hexadecimal(groups.last() as nat)
    }
}

/// The groups as text, with the run of `len` zero groups from `start` on
/// left out where it is longer than one group.
pub open spec fn compressed(groups: Seq<u16>, start: int, len: int) -> Seq<char> {
    if len > 1 {
        joined(groups.take(start)) + "::"@ + joined(groups.skip(start + len))
    } else {
        joined(groups)
    }
}

/// An IPv6 address as text: an address that stands for an IPv4 address as
/// `::ffff:` and that address; any other in hexadecimal groups, with the
/// longest run of zero groups, the first of them, left out.
pub open spec fn ipv6_text(bits: u128) -> Seq<char> {
    if bits / 0x1_0000_0000 == 0xffff {
        "::ffff:"@ + ipv4_text((bits % 0x1_0000_0000) as u32)
    } else {
        let (start, len) = choose|start: int, len: int|
            longest_zero_run(segments(bits), start, len);
        compressed(segments(bits), start, len)
    }
}

/// There is one longest run of zero groups that is the first of its length.
pub proof fn lemma_longest_zero_run_is_unique(
    groups: Seq<u16>,
    start: int,
    len: int,
    other_start: int,
    other_len: int,
)
    requires
        longest_zero_run(groups, start, len),
        longest_zero_run(groups, other_start, other_len),
    ensures
        start == other_start,
        len == other_len,
{
}

/// Finds the longest run of zero groups, and the first of that length.
fn find_zero_run(groups: &Vec<u16>) -> (run: (usize, usize))
    ensures
        longest_zero_run(groups@, run.0 as int, run.1 as int),
{
    let mut best_start: usize = 0;
    let mut best_len: usize = 0;
    let mut current_start: usize = 0;
    let mut current_len: usize = 0;
    let mut i: usize = 0;
    while i < groups.len()
        invariant
            i <= groups@.len(),
            best_start + best_len <= i,
            current_start + current_len == i,
            current_len <= best_len,
            zero_run(groups@, best_start as int, best_len as int),
            zero_run(groups@, current_start as int, current_len as int),
            current_start > 0 ==> groups@[current_start - 1] != 0,
            best_len == 0 ==> best_start == 0,
            forall|a: int, n: int| #[trigger]
                zero_run(groups@, a, n) && a + n <= i ==> n <= best_len,
            forall|a: int| #[trigger]
                zero_run(groups@, a, best_len as int) && a + best_len <= i ==> best_start <= a,
        decreases groups@.len() - i,
    {
        if groups[i] == 0 {
            current_len = current_len + 1;
            if current_len > best_len {
                best_start = current_start;
                best_len = current_len;
            }
        } else {
            current_start = i + 1;
            current_len = 0;
        }
        i = i + 1;
    }
    (best_start, best_len)
}

/// Appends the groups from `from` up to `to` in hexadecimal, with colons
/// between them.
fn push_joined(text: &mut String, groups: &Vec<u16>, from: usize, to: usize)
    requires
        from <= to <= groups@.len(),
    ensures
        final(text)@ == old(text)@ + joined(groups@.subrange(from as int, to as int)),
{
    let mut i: usize = from;
    while i < to
        invariant
            from <= i <= to <= groups@.len(),
            text@ == old(text)@ + joined(groups@.subrange(from as int, i as int)),
        decreases to - i,
    {
        let ghost so_far = groups@.subrange(from as int, i as int);
        let ghost with_next = groups@.subrange(from as int, i + 1);
        assert(with_next.drop_last() =~= so_far);
        if i > from {
            text.append(":");
        }
        push_hexadecimal(text, groups[i] as u64);
        i = i + 1;
    }
}

/// Appends the IPv4 address as text.
fn push_ipv4(text: &mut String, bits: u32)
    ensures
        final(text)@ == old(text)@ + ipv4_text(bits),
{
    let mut octets: Vec<u8> = Vec::new();
    push_be(&mut octets, bits as u128, 4);
    proof {
        lemma_be_bytes_len(bits as nat, 4);
    }
    push_decimal(text, octets[0] as u64);
    text.append(".");
    push_decimal(text, octets[1] as u64);
    text.append(".");
    push_decimal(text, octets[2] as u64);
    text.append(".");
    push_decimal(text, octets[3] as u64);
}

/// The eight 16-bit groups of an IPv6 address, first group first.
fn groups_of(bits: u128) -> (groups: Vec<u16>)
    ensures
        groups@ == segments(bits),
{
    let mut bytes: Vec<u8> = Vec::new();
    push_be(&mut bytes, bits, 16);
    proof {
        lemma_be_bytes_len(bits as nat, 16);
    }
    let mut groups: Vec<u16> = Vec::new();
    let mut i: usize = 0;
    while i < 8
        invariant
            i <= 8,
            bytes@ == be_bytes(bits as nat, 16),
            bytes@.len() == 16,
            groups@ == segments(bits).take(i as int),
        decreases 8 - i,
    {
        let group: u16 = bytes[2 * i] as u16 * 256 + bytes[2 * i + 1] as u16;
        groups.push(group);
        i = i + 1;
    }
    groups
}

/// Appends the IPv6 address as text.
fn push_ipv6(text: &mut String, bits: u128)
    ensures
        final(text)@ == old(text)@ + ipv6_text(bits),
{
    if bits / 0x1_0000_0000 == 0xffff {
        text.append("::ffff:");
        push_ipv4(text, (bits % 0x1_0000_0000) as u32);
    } else {
        let groups = groups_of(bits);
        let (start, len) = find_zero_run(&groups);
        proof {
            let (chosen_start, chosen_len) = choose|start: int, len: int|
                longest_zero_run(segments(bits), start, len);
            lemma_longest_zero_run_is_unique(
                segments(bits),
                start as int,
                len as int,
                chosen_start,
                chosen_len,
            );
            assert(groups@ =~= groups@.subrange(0, groups@.len() as int));
        }
        if len > 1 {
            push_joined(text, &groups, 0, start);
            text.append("::");
            push_joined(text, &groups, start + len, groups.len());
        } else {
            push_joined(text, &groups, 0, groups.len());
        }
    }
}

impl IpAddress {
    /// The address as text.
    pub open spec fn text(self) -> Seq<char> {
        match self {
            IpAddress::V4(bits) => ipv4_text(bits),
            IpAddress::V6(bits) => ipv6_text(bits),
        }
    }

    /// The address as text.
    pub fn to_string(&self) -> (text: String)
        ensures
            text@ == self.text(),
    {
        let mut text = String::new();
        match self {
            IpAddress::V4(bits) => push_ipv4(&mut text, *bits),
            IpAddress::V6(bits) => push_ipv6(&mut text, *bits),
        }
        text
    }
}

/// An IP address with a port.
#[derive(Clone, Copy, Debug, PartialEq, Eq, Structural)]
pub struct SocketAddress {
    pub ip: IpAddress,
    pub port: u16,
}

impl SocketAddress {
    pub fn new(ip: IpAddress, port: u16) -> (socket: SocketAddress)
        ensures
            socket == (SocketAddress { ip, port }),
    {
        SocketAddress { ip, port }
    }
}

} // verus!
