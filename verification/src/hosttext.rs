//! Textual rendering of decoded hosts: an IPv4 address as a dotted quad, an
//! IPv6 address as eight lowercase hex groups separated by colons, and a
//! domain name decoded permissively from its raw bytes.

use vstd::prelude::*;
use crate::socks5::{Host, HostModel};

verus! {

/// The decimal digit character for a value below 10.
pub open spec fn dec_digit(n: u8) -> char
    recommends
        n < 10,
{
    (48 + n) as char
}

/// The lowercase hex digit character for a value below 16.
pub open spec fn hex_digit(n: u8) -> char
    recommends
        n < 16,
{
    if n < 10 {
        (48 + n) as char
    } else {
        (87 + n) as char
    }
}

/// A byte in decimal, without leading zeros.
pub open spec fn dec_u8(n: u8) -> Seq<char> {
    if n < 10 {
        seq![dec_digit(n)]
    } else if n < 100 {
        seq![dec_digit(n / 10), dec_digit(n % 10)]
    } else {
        seq![dec_digit(n / 100), dec_digit((n / 10) % 10), dec_digit(n % 10)]
    }
}

/// An IPv4 address as a dotted quad.
pub open spec fn ipv4_text(a: u8, b: u8, c: u8, d: u8) -> Seq<char> {
    dec_u8(a) + seq!['.'] + dec_u8(b) + seq!['.'] + dec_u8(c) + seq!['.'] + dec_u8(d)
}

/// One 16-bit group of an IPv6 address as four lowercase hex digits.
pub open spec fn group_text(hi: u8, lo: u8) -> Seq<char> {
    seq![hex_digit(hi / 16), hex_digit(hi % 16), hex_digit(lo / 16), hex_digit(lo % 16)]
}

/// The first `k` groups of an IPv6 address, separated by colons.
pub open spec fn ipv6_groups(o: Seq<u8>, k: int) -> Seq<char>
    recommends
        o.len() == 16,
        0 <= k <= 8,
    decreases k,
{
    if k <= 0 {
        Seq::empty()
    } else if k == 1 {
        group_text(o[0], o[1])
    } else {
        ipv6_groups(o, k - 1) + seq![':'] + group_text(o[2 * (k - 1)], o[2 * (k - 1) + 1])
    }
}

/// An IPv6 address as eight colon-separated lowercase hex groups.
pub open spec fn ipv6_text(o: Seq<u8>) -> Seq<char>
    recommends
        o.len() == 16,
{
    ipv6_groups(o, 8)
}

/// What `from_utf8_lossy` makes of a byte sequence; a function of the bytes
/// alone, named rather than restated.
pub uninterp spec fn lossy_utf8(bytes: Seq<u8>) -> Seq<char>;

/// The text a session hands the backend for each kind of host.
pub open spec fn host_text_spec(h: HostModel) -> Seq<char> {
    match h {
        HostModel::Ipv4(o) => ipv4_text(o[0], o[1], o[2], o[3]),
        HostModel::Domain(d) => lossy_utf8(d),
        HostModel::Ipv6(o) => ipv6_text(o),
    }
}

/// Relies on String::push: appends exactly the one character.
#[verifier::external_body]
fn push_char(s: &mut String, c: char)
    ensures
        final(s)@ == old(s)@ + seq![c],
{
    s.push(c);
}

/// Relies on String::from_utf8_lossy: the result is a function of the bytes
/// alone, and valid UTF-8 input decodes without replacement.
#[verifier::external_body]
fn lossy_text(bytes: &Vec<u8>) -> (r: String)
    ensures
        r@ == lossy_utf8(bytes@),
        vstd::utf8::valid_utf8(bytes@) ==> r@ == vstd::utf8::decode_utf8(bytes@),
{
    String::from(String::from_utf8_lossy(bytes.as_slice()))
}

/// Append one byte's lowercase hex digits.
fn push_hex_byte(s: &mut String, n: u8)
    ensures
        final(s)@ == old(s)@ + seq![hex_digit(n / 16), hex_digit(n % 16)],
{
    let hi = n / 16;
    let lo = n % 16;
    if hi < 10 {
        push_char(s, (48 + hi) as char);
    } else {
        push_char(s, (87 + hi) as char);
    }
    if lo < 10 {
        push_char(s, (48 + lo) as char);
    } else {
        push_char(s, (87 + lo) as char);
    }
    assert(s@ =~= old(s)@ + seq![hex_digit(n / 16), hex_digit(n % 16)]);
}

/// Append one byte in decimal, without leading zeros.
fn push_dec_byte(s: &mut String, n: u8)
    ensures
        final(s)@ == old(s)@ + dec_u8(n),
{
    if n < 10 {
        push_char(s, (48 + n) as char);
    } else if n < 100 {
        push_char(s, (48 + n / 10) as char);
        push_char(s, (48 + n % 10) as char);
    } else {
        push_char(s, (48 + n / 100) as char);
        push_char(s, (48 + (n / 10) % 10) as char);
        push_char(s, (48 + n % 10) as char);
    }
    assert(s@ =~= old(s)@ + dec_u8(n));
}

/// Render a decoded host as the text handed to the backend connect: a
/// dotted quad, colon-separated lowercase hex groups, or the permissively
/// decoded domain name.
pub fn host_text(h: &Host) -> (r: String)
    requires
        h.wf(),
    ensures
        r@ == host_text_spec(h@),
{
    match h {
        Host::Ipv4(a, b, c, d) => {
            let mut s = String::new();
            push_dec_byte(&mut s, *a);
            push_char(&mut s, '.');
            push_dec_byte(&mut s, *b);
            push_char(&mut s, '.');
            push_dec_byte(&mut s, *c);
            push_char(&mut s, '.');
            push_dec_byte(&mut s, *d);
            assert(s@ =~= ipv4_text(*a, *b, *c, *d));
            s
        },
        Host::Domain(bytes) => lossy_text(bytes),
        Host::Ipv6(octets) => {
            let mut s = String::new();
            let mut i: usize = 0;
            while i < 8
                invariant
                    i <= 8,
                    octets@.len() == 16,
                    s@ == ipv6_groups(octets@, i as int),
                decreases 8 - i,
            {
                if i > 0 {
                    push_char(&mut s, ':');
                }
                push_hex_byte(&mut s, octets[2 * i]);
                push_hex_byte(&mut s, octets[2 * i + 1]);
                assert(s@ =~= ipv6_groups(octets@, i + 1 as int));
                i += 1;
            }
            s
        },
    }
}

} // verus!
