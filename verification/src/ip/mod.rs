//! IP addresses as plain values, and their text form: dotted decimal for
//! IPv4; for IPv6 lower-case hexadecimal groups with the first longest run
//! of two or more zero groups written as `::`, and IPv4-mapped addresses
//! as `::ffff:` followed by the dotted IPv4 address.
use vstd::prelude::*;
use vstd::string::*;
use vstd::utf8::*;

use crate::text::{ascii_to_string, is_ascii_bytes};

pub mod roundtrip;

verus! {

/// An IPv4 or IPv6 address, held as its number (the address bytes read in
/// network byte order).
#[derive(Debug, Clone, Copy, PartialEq, Eq, Structural)]
pub enum IpAddr {
    V4(u32),
    V6(u128),
}

pub const COLON: u8 = 0x3a;

pub const DOT: u8 = 0x2e;

/// The ASCII digit of a number below 16 (lower-case letters above 9).
pub open spec fn digit_char(d: nat) -> u8 {
    if d < 10 {
        (48 + d) as u8
    } else {
        (87 + d) as u8
    }
}

/// The decimal digits of `n`, without leading zeros.
pub open spec fn dec_text(n: nat) -> Seq<u8>
    decreases n,
{
    if n < 10 {
        seq![digit_char(n)]
    } else {
        dec_text(n / 10).push(digit_char(n % 10))
    }
}

/// The lower-case hexadecimal digits of `n`, without leading zeros.
pub open spec fn hex_text(n: nat) -> Seq<u8>
    decreases n,
{
    if n < 16 {
        seq![digit_char(n)]
    } else {
        hex_text(n / 16).push(digit_char(n % 16))
    }
}

/// Byte `i` (0 the most significant) of an IPv4 address.
pub open spec fn octet(v: u32, i: int) -> u8 {
    ((v >> ((24 - 8 * i) as u32)) & 0xff) as u8
}

/// The dotted decimal text of an IPv4 address.
pub open spec fn ipv4_text(v: u32) -> Seq<u8> {
    dec_text(octet(v, 0) as nat) + seq![DOT] + dec_text(octet(v, 1) as nat) + seq![DOT] + dec_text(
        octet(v, 2) as nat,
    ) + seq![DOT] + dec_text(octet(v, 3) as nat)
}

/// Group `i` (0 the most significant) of an IPv6 address.
pub open spec fn segment(v: u128, i: int) -> u16 {
    ((v >> ((112 - 16 * i) as u32)) & 0xffff) as u16
}

/// The eight 16-bit groups of an IPv6 address.
pub open spec fn segments(v: u128) -> Seq<u16> {
    Seq::new(8, |i: int| segment(v, i))
}

/// The groups in hexadecimal, separated by `:`.
pub open spec fn join_hex(gs: Seq<u16>) -> Seq<u8>
    decreases gs.len(),
{
    if gs.len() == 0 {
        seq![]
    } else if gs.len() == 1 {
        hex_text(gs[0] as nat)
    } else {
        hex_text(gs[0] as nat) + seq![COLON] + join_hex(gs.drop_first())
    }
}

/// The number of zero groups from position `i` on, up to the first
/// non-zero group.
pub open spec fn zeros_from(gs: Seq<u16>, i: int) -> nat
    decreases gs.len() - i,
{
    if i < 0 || i >= gs.len() || gs[i] != 0 {
        0
    } else {
        1 + zeros_from(gs, i + 1)
    }
}

/// The first position at or after `i` where the longest run of zero groups
/// (from `i` on) begins.
pub open spec fn best_run(gs: Seq<u16>, i: int) -> int
    decreases gs.len() - i,
{
    if i >= gs.len() - 1 {
        i
    } else {
        let b = best_run(gs, i + 1);
        if zeros_from(gs, i) >= zeros_from(gs, b) {
            i
        } else {
            b
        }
    }
}

/// The address is an IPv4 address mapped into IPv6 (`::ffff:a.b.c.d`).
pub open spec fn is_ipv4_mapped(v: u128) -> bool {
    &&& segment(v, 0) == 0
    &&& segment(v, 1) == 0
    &&& segment(v, 2) == 0
    &&& segment(v, 3) == 0
    &&& segment(v, 4) == 0
    &&& segment(v, 5) == 0xffff
}

/// The text of an IPv6 address.
pub open spec fn ipv6_text(v: u128) -> Seq<u8> {
    let gs = segments(v);
    if is_ipv4_mapped(v) {
        seq![COLON, COLON, 102, 102, 102, 102, COLON] + ipv4_text((v & 0xffff_ffff) as u32)
    } else {
        let s = best_run(gs, 0);
        let l = zeros_from(gs, s);
        if l > 1 {
            join_hex(gs.take(s)) + seq![COLON, COLON] + join_hex(gs.skip(s + l))
        } else {
            join_hex(gs)
        }
    }
}

/// The text of an IP address.
pub open spec fn ip_text(a: IpAddr) -> Seq<u8> {
    match a {
        IpAddr::V4(v) => ipv4_text(v),
        IpAddr::V6(v) => ipv6_text(v),
    }
}

fn digit_char_exec(d: u8) -> (r: u8)
    requires
        d < 16,
    ensures
        r == digit_char(d as nat),
{
    if d < 10 {
        48 + d
    } else {
        87 + d
    }
}

/// Appends the decimal digits of `n`.
fn push_dec(out: &mut Vec<u8>, n: u8)
    ensures
        final(out)@ == old(out)@ + dec_text(n as nat),
    decreases n,
{
    if n >= 10 {
        push_dec(out, n / 10);
    }
    out.push(digit_char_exec(n % 10));
    proof {
        if n >= 10 {
            assert(old(out)@ + dec_text(n as nat) =~= old(out)@ + dec_text((n / 10) as nat) + seq![
                digit_char((n % 10) as nat),
            ]);
        } else {
            assert(old(out)@ + dec_text(n as nat) =~= old(out)@ + seq![digit_char((n % 10) as nat)]);
        }
    }
}

/// Appends the hexadecimal digits of `n`.
fn push_hex(out: &mut Vec<u8>, n: u16)
    ensures
        final(out)@ == old(out)@ + hex_text(n as nat),
    decreases n,
{
    if n >= 16 {
        push_hex(out, n / 16);
    }
    out.push(digit_char_exec((n % 16) as u8));
    proof {
        if n >= 16 {
            assert(old(out)@ + hex_text(n as nat) =~= old(out)@ + hex_text((n / 16) as nat) + seq![
                digit_char((n % 16) as nat),
            ]);
        } else {
            assert(old(out)@ + hex_text(n as nat) =~= old(out)@ + seq![digit_char((n % 16) as nat)]);
        }
    }
}

/// Appends the dotted decimal text of an IPv4 address.
fn push_ipv4(out: &mut Vec<u8>, v: u32)
    ensures
        final(out)@ == old(out)@ + ipv4_text(v),
{
    let o0 = ((v >> 24u32) & 0xff) as u8;
    let o1 = ((v >> 16u32) & 0xff) as u8;
    let o2 = ((v >> 8u32) & 0xff) as u8;
    let o3 = ((v >> 0u32) & 0xff) as u8;
    assert(o0 == octet(v, 0) && o1 == octet(v, 1) && o2 == octet(v, 2) && o3 == octet(v, 3));
    push_dec(out, o0);
    out.push(DOT);
    push_dec(out, o1);
    out.push(DOT);
    push_dec(out, o2);
    out.push(DOT);
    push_dec(out, o3);
    assert(final(out)@ =~= old(out)@ + ipv4_text(v));
}

/// Appends the groups in hexadecimal, separated by `:`.
fn push_join_hex(out: &mut Vec<u8>, gs: &[u16])
    ensures
        final(out)@ == old(out)@ + join_hex(gs@),
    decreases gs@.len(),
{
    if gs.len() == 0 {
        assert(old(out)@ + join_hex(gs@) =~= old(out)@);
        return;
    }
    push_hex(out, gs[0]);
    if gs.len() > 1 {
        out.push(COLON);
        let rest = &gs[1..gs.len()];
        assert(rest@ =~= gs@.drop_first());
        push_join_hex(out, rest);
    }
    assert(final(out)@ =~= old(out)@ + join_hex(gs@));
}

/// Computes `zeros_from`.
fn zeros_at(gs: &[u16], i: usize) -> (r: usize)
    requires
        gs@.len() == 8,
        i <= 8,
    ensures
        r == zeros_from(gs@, i as int),
        r <= 8 - i,
    decreases 8 - i,
{
    if i >= 8 || gs[i] != 0 {
        0
    } else {
        1 + zeros_at(gs, i + 1)
    }
}

/// The text of an IPv6 address.
fn ipv6_text_bytes(v: u128) -> (r: Vec<u8>)
    ensures
        r@ == ipv6_text(v),
{
    let mut gs: Vec<u16> = Vec::new();
    let mut i: usize = 0;
    while i < 8
        invariant
            i <= 8,
            gs@.len() == i,
            forall|j: int| 0 <= j < i ==> gs@[j] == segment(v, j),
        decreases 8 - i,
    {
        let sh: u32 = (112 - 16 * i) as u32;
        gs.push(((v >> sh) & 0xffff) as u16);
        i = i + 1;
    }
    assert(gs@ =~= segments(v));
    let mut out: Vec<u8> = Vec::new();
    if gs[0] == 0 && gs[1] == 0 && gs[2] == 0 && gs[3] == 0 && gs[4] == 0 && gs[5] == 0xffff {
        out.push(COLON);
        out.push(COLON);
        out.push(102);
        out.push(102);
        out.push(102);
        out.push(102);
        out.push(COLON);
        push_ipv4(&mut out, (v & 0xffff_ffff) as u32);
        assert(out@ =~= ipv6_text(v));
        return out;
    }
    let mut best: usize = 7;
    let mut k: usize = 7;
    while k > 0
        invariant
            k <= 7,
            gs@ == segments(v),
            best == best_run(gs@, k as int),
            k <= best <= 7,
        decreases k,
    {
        k = k - 1;
        if zeros_at(gs.as_slice(), k) >= zeros_at(gs.as_slice(), best) {
            best = k;
        }
    }
    let len = zeros_at(gs.as_slice(), best);
    if len > 1 {
        push_join_hex(&mut out, &gs[0..best]);
        out.push(COLON);
        out.push(COLON);
        push_join_hex(&mut out, &gs[best + len..8]);
        assert(gs@.subrange(0, best as int) =~= gs@.take(best as int));
        assert(gs@.subrange(best + len, 8) =~= gs@.skip(best + len));
        assert(out@ =~= ipv6_text(v));
    } else {
        push_join_hex(&mut out, gs.as_slice());
        assert(out@ =~= ipv6_text(v));
    }
    out
}

/// The text of an IP address, as bytes.
pub fn ip_text_bytes(a: IpAddr) -> (r: Vec<u8>)
    ensures
        r@ == ip_text(a),
{
    match a {
        IpAddr::V4(v) => {
            let mut out: Vec<u8> = Vec::new();
            push_ipv4(&mut out, v);
            assert(out@ =~= ipv4_text(v));
            out
        },
        IpAddr::V6(v) => ipv6_text_bytes(v),
    }
}

/// An ASCII decimal digit.
pub open spec fn is_dec_digit(b: u8) -> bool {
    48 <= b <= 57
}

/// An ASCII hexadecimal digit, either case.
pub open spec fn is_hex_digit(b: u8) -> bool {
    is_dec_digit(b) || 97 <= b <= 102 || 65 <= b <= 70
}

/// The value of a (hexadecimal) digit.
pub open spec fn digit_value(b: u8) -> nat {
    if is_dec_digit(b) {
        (b - 48) as nat
    } else if 97 <= b <= 102 {
        (b - 87) as nat
    } else {
        (b - 55) as nat
    }
}

/// The number that the digits make in the given base.
pub open spec fn digits_value(f: Seq<u8>, base: nat) -> nat
    decreases f.len(),
{
    if f.len() == 0 {
        0
    } else {
        digits_value(f.drop_last(), base) * base + digit_value(f.last())
    }
}

/// A decimal field of a dotted quad: one to three digits, no leading zero,
/// at most 255.
pub open spec fn dec_octet(f: Seq<u8>) -> Option<u8> {
    if 1 <= f.len() <= 3 && (forall|i: int| 0 <= i < f.len() ==> is_dec_digit(#[trigger] f[i])) && !(
    f.len() > 1 && f[0] == 48) && digits_value(f, 10) <= 255 {
        Some(digits_value(f, 10) as u8)
    } else {
        None
    }
}

/// A group of an IPv6 address: one to four hexadecimal digits.
pub open spec fn hex_group(f: Seq<u8>) -> Option<u16> {
    if 1 <= f.len() <= 4 && (forall|i: int| 0 <= i < f.len() ==> is_hex_digit(#[trigger] f[i])) {
        Some(digits_value(f, 16) as u16)
    } else {
        None
    }
}

/// The first position at or after `i` that holds `b`, or the length.
pub open spec fn next_index_of(s: Seq<u8>, i: int, b: u8) -> int
    decreases s.len() - i,
{
    if i >= s.len() {
        s.len() as int
    } else if s[i] == b {
        i
    } else {
        next_index_of(s, i + 1, b)
    }
}

/// `next_index_of` lies between `i` and the length.
pub proof fn lemma_next_index_of_bounds(s: Seq<u8>, i: int, b: u8)
    requires
        0 <= i <= s.len(),
    ensures
        i <= next_index_of(s, i, b) <= s.len(),
    decreases s.len() - i,
{
    if i < s.len() && s[i] != b {
        lemma_next_index_of_bounds(s, i + 1, b);
    }
}

/// The octets of the `.`-separated fields of `s` from position `i` on.
pub open spec fn octets_from(s: Seq<u8>, i: int) -> Option<Seq<u8>>
    decreases s.len() - i,
{
    if i < 0 || i > s.len() {
        None
    } else {
        let j = next_index_of(s, i, DOT);
        match dec_octet(s.subrange(i, j)) {
            None => None,
            Some(o) => if j >= s.len() {
                Some(seq![o])
            } else {
                proof {
                    lemma_next_index_of_bounds(s, i, DOT);
                }
                match octets_from(s, j + 1) {
                    Some(rest) => Some(seq![o] + rest),
                    None => None,
                }
            },
        }
    }
}

/// The IPv4 address of four octets.
pub open spec fn from_octets(o: Seq<u8>) -> u32 {
    (o[0] as u32) << 24u32 | (o[1] as u32) << 16u32 | (o[2] as u32) << 8u32 | (o[3] as u32)
}

/// The IPv4 address that a dotted quad denotes.
pub open spec fn parse_ipv4(s: Seq<u8>) -> Option<u32> {
    match octets_from(s, 0) {
        Some(o) => if o.len() == 4 {
            Some(from_octets(o))
        } else {
            None
        },
        None => None,
    }
}

/// The two groups that an IPv4 address fills at the end of an IPv6 address.
pub open spec fn v4_groups(v: u32) -> Seq<u16> {
    seq![(v >> 16u32) as u16, (v & 0xffff) as u16]
}

/// The groups of the `:`-separated fields of `s` from position `i` on; the
/// last field may be a dotted quad when `allow_v4` holds.
pub open spec fn groups_from(s: Seq<u8>, i: int, allow_v4: bool) -> Option<Seq<u16>>
    decreases s.len() - i,
{
    if i < 0 || i > s.len() {
        None
    } else {
        let j = next_index_of(s, i, COLON);
        let f = s.subrange(i, j);
        if j >= s.len() {
            if allow_v4 && parse_ipv4(f) is Some {
                Some(v4_groups(parse_ipv4(f).unwrap()))
            } else {
                match hex_group(f) {
                    Some(g) => Some(seq![g]),
                    None => None,
                }
            }
        } else {
            proof {
                lemma_next_index_of_bounds(s, i, COLON);
            }
            match (hex_group(f), groups_from(s, j + 1, allow_v4)) {
                (Some(g), Some(rest)) => Some(seq![g] + rest),
                _ => None,
            }
        }
    }
}

/// The IPv6 address of eight groups.
pub open spec fn from_groups(g: Seq<u16>) -> u128 {
    (g[0] as u128) << 112u32 | (g[1] as u128) << 96u32 | (g[2] as u128) << 80u32 | (g[3] as u128)
        << 64u32 | (g[4] as u128) << 48u32 | (g[5] as u128) << 32u32 | (g[6] as u128) << 16u32 | (
    g[7] as u128)
}

/// The first position of `::` in `s`, or the length.
pub open spec fn double_colon_at(s: Seq<u8>, i: int) -> int
    decreases s.len() - i,
{
    if i + 1 >= s.len() {
        s.len() as int
    } else if s[i] == COLON && s[i + 1] == COLON {
        i
    } else {
        double_colon_at(s, i + 1)
    }
}

/// The groups of a part of an IPv6 address around `::`; the empty part
/// has none.
pub open spec fn part_groups(s: Seq<u8>, allow_v4: bool) -> Option<Seq<u16>> {
    if s.len() == 0 {
        Some(seq![])
    } else {
        groups_from(s, 0, allow_v4)
    }
}

/// The IPv6 address that a text denotes: eight groups, or groups before
/// and after a `::` that stands for the missing zero groups; a dotted quad
/// may stand for the last two groups.
pub open spec fn parse_ipv6(s: Seq<u8>) -> Option<u128> {
    let k = double_colon_at(s, 0);
    if k >= s.len() {
        match groups_from(s, 0, true) {
            Some(g) => if g.len() == 8 {
                Some(from_groups(g))
            } else {
                None
            },
            None => None,
        }
    } else {
        match (
            part_groups(s.subrange(0, k), false),
            part_groups(s.subrange(k + 2, s.len() as int), true),
        ) {
            (Some(h), Some(t)) => if h.len() + t.len() <= 7 {
                Some(from_groups(h + Seq::new((8 - h.len() - t.len()) as nat, |i: int| 0u16) + t))
            } else {
                None
            },
            _ => None,
        }
    }
}

/// The address that a text denotes, read as IPv4 first and else as IPv6.
pub open spec fn parse_ip(s: Seq<u8>) -> Option<IpAddr> {
    match parse_ipv4(s) {
        Some(v) => Some(IpAddr::V4(v)),
        None => match parse_ipv6(s) {
            Some(v) => Some(IpAddr::V6(v)),
            None => None,
        },
    }
}

fn next_index_of_exec(s: &[u8], i: usize, b: u8) -> (r: usize)
    requires
        i <= s@.len(),
    ensures
        r == next_index_of(s@, i as int, b),
        i <= r <= s@.len(),
    decreases s@.len() - i,
{
    if i >= s.len() {
        s.len()
    } else if s[i] == b {
        i
    } else {
        next_index_of_exec(s, i + 1, b)
    }
}

/// A digit of base 16 when `hex` holds, else of base 10.
pub open spec fn is_digit_of(b: u8, hex: bool) -> bool {
    if hex {
        is_hex_digit(b)
    } else {
        is_dec_digit(b)
    }
}

/// 16 when `hex` holds, else 10.
pub open spec fn base_of(hex: bool) -> nat {
    if hex {
        16
    } else {
        10
    }
}

/// Sixteen to the power `n`.
pub open spec fn pow16(n: nat) -> nat
    decreases n,
{
    if n == 0 {
        1
    } else {
        16 * pow16((n - 1) as nat)
    }
}

/// Reads the digits of `s[a..b]` in the given base; None when one is not
/// a digit of that base.
fn digits_exec(s: &[u8], a: usize, b: usize, hex: bool) -> (r: Option<u32>)
    requires
        a <= b <= s@.len(),
        b - a <= 4,
    ensures
        match r {
            Some(v) => (forall|i: int|
                0 <= i < b - a ==> is_digit_of(#[trigger] s@.subrange(a as int, b as int)[i], hex))
                && v == digits_value(s@.subrange(a as int, b as int), base_of(hex)),
            None => exists|i: int|
                0 <= i < b - a && !is_digit_of(#[trigger] s@.subrange(a as int, b as int)[i], hex),
        },
{
    let ghost base: nat = base_of(hex);
    let mut v: u32 = 0;
    let mut i = a;
    assert(s@.subrange(a as int, a as int) =~= Seq::<u8>::empty());
    while i < b
        invariant
            a <= i <= b <= s@.len(),
            b - a <= 4,
            base == base_of(hex),
            v == digits_value(s@.subrange(a as int, i as int), base),
            v < pow16((i - a) as nat),
            forall|k: int| 0 <= k < i - a ==> is_digit_of(#[trigger] s@.subrange(a as int, b as int)[k], hex),
        decreases b - i,
    {
        let c = s[i];
        assert(s@.subrange(a as int, b as int)[i - a] == c);
        let d: u32 = if 48 <= c && c <= 57 {
            (c - 48) as u32
        } else if hex && 97 <= c && c <= 102 {
            (c - 87) as u32
        } else if hex && 65 <= c && c <= 70 {
            (c - 55) as u32
        } else {
            return None;
        };
        proof {
            assert(s@.subrange(a as int, i + 1).drop_last() =~= s@.subrange(a as int, i as int));
            assert(s@.subrange(a as int, i + 1).last() == c);
            let k = (i - a) as nat;
            assert(pow16(k) <= 4096) by {
                reveal_with_fuel(pow16, 4);
            }
            assert(v * base + d < 16 * pow16(k)) by (nonlinear_arith)
                requires
                    v < pow16(k),
                    base <= 16,
                    d < 16,
            ;
        }
        v = if hex { v * 16 + d } else { v * 10 + d };
        i = i + 1;
    }
    Some(v)
}

/// Computes `dec_octet` of `s[a..b]`.
fn dec_octet_exec(s: &[u8], a: usize, b: usize) -> (r: Option<u8>)
    requires
        a <= b <= s@.len(),
    ensures
        r == dec_octet(s@.subrange(a as int, b as int)),
{
    let ghost f = s@.subrange(a as int, b as int);
    if b - a < 1 || b - a > 3 {
        return None;
    }
    if b - a > 1 && s[a] == 48 {
        assert(f[0] == 48);
        return None;
    }
    match digits_exec(s, a, b, false) {
        Some(v) => {
            if v <= 255 {
                Some(v as u8)
            } else {
                None
            }
        },
        None => {
            let ghost i = choose|i: int| 0 <= i < b - a && !is_digit_of(#[trigger] f[i], false);
            assert(!is_dec_digit(f[i]));
            None
        },
    }
}

/// Computes `hex_group` of `s[a..b]`.
fn hex_group_exec(s: &[u8], a: usize, b: usize) -> (r: Option<u16>)
    requires
        a <= b <= s@.len(),
    ensures
        r == hex_group(s@.subrange(a as int, b as int)),
{
    let ghost f = s@.subrange(a as int, b as int);
    if b - a < 1 || b - a > 4 {
        return None;
    }
    match digits_exec(s, a, b, true) {
        Some(v) => {
            assert(forall|i: int| 0 <= i < f.len() ==> is_hex_digit(#[trigger] f[i])) by {
                assert(forall|i: int| 0 <= i < b - a ==> is_digit_of(#[trigger] f[i], true));
            }
            Some(v as u16)
        },
        None => {
            let ghost i = choose|i: int| 0 <= i < b - a && !is_digit_of(#[trigger] f[i], true);
            assert(!is_hex_digit(f[i]));
            None
        },
    }
}

/// Computes `octets_from`.
fn octets_from_exec(s: &[u8], i: usize) -> (r: Option<Vec<u8>>)
    requires
        i <= s@.len(),
    ensures
        match r {
            Some(v) => octets_from(s@, i as int) == Some(v@),
            None => octets_from(s@, i as int) is None,
        },
    decreases s@.len() - i,
{
    let j = next_index_of_exec(s, i, DOT);
    let o = match dec_octet_exec(s, i, j) {
        Some(o) => o,
        None => return None,
    };
    if j >= s.len() {
        let mut v: Vec<u8> = Vec::new();
        v.push(o);
        assert(v@ =~= seq![o]);
        return Some(v);
    }
    match octets_from_exec(s, j + 1) {
        Some(mut rest) => {
            let mut v: Vec<u8> = Vec::new();
            v.push(o);
            v.append(&mut rest);
            assert(v@ =~= seq![o] + octets_from(s@, j + 1).unwrap());
            Some(v)
        },
        None => None,
    }
}

/// Computes `parse_ipv4`.
fn parse_ipv4_exec(s: &[u8]) -> (r: Option<u32>)
    ensures
        r == parse_ipv4(s@),
{
    match octets_from_exec(s, 0) {
        Some(o) => {
            if o.len() == 4 {
                Some(
                    (o[0] as u32) << 24u32 | (o[1] as u32) << 16u32 | (o[2] as u32) << 8u32 | (
                    o[3] as u32),
                )
            } else {
                None
            }
        },
        None => None,
    }
}

/// Computes `groups_from`.
fn groups_from_exec(s: &[u8], i: usize, allow_v4: bool) -> (r: Option<Vec<u16>>)
    requires
        i <= s@.len(),
    ensures
        match r {
            Some(v) => groups_from(s@, i as int, allow_v4) == Some(v@),
            None => groups_from(s@, i as int, allow_v4) is None,
        },
    decreases s@.len() - i,
{
    let j = next_index_of_exec(s, i, COLON);
    if j >= s.len() {
        let f = &s[i..j];
        assert(f@ =~= s@.subrange(i as int, j as int));
        if allow_v4 {
            if let Some(v4) = parse_ipv4_exec(f) {
                let mut v: Vec<u16> = Vec::new();
                v.push((v4 >> 16u32) as u16);
                v.push((v4 & 0xffff) as u16);
                assert(v@ =~= v4_groups(v4));
                return Some(v);
            }
        }
        match hex_group_exec(s, i, j) {
            Some(g) => {
                let mut v: Vec<u16> = Vec::new();
                v.push(g);
                assert(v@ =~= seq![g]);
                Some(v)
            },
            None => None,
        }
    } else {
        let g = match hex_group_exec(s, i, j) {
            Some(g) => g,
            None => return None,
        };
        match groups_from_exec(s, j + 1, allow_v4) {
            Some(mut rest) => {
                let mut v: Vec<u16> = Vec::new();
                v.push(g);
                v.append(&mut rest);
                assert(v@ =~= seq![g] + groups_from(s@, j + 1, allow_v4).unwrap());
                Some(v)
            },
            None => None,
        }
    }
}

/// Computes `part_groups`.
fn part_groups_exec(s: &[u8], allow_v4: bool) -> (r: Option<Vec<u16>>)
    ensures
        match r {
            Some(v) => part_groups(s@, allow_v4) == Some(v@),
            None => part_groups(s@, allow_v4) is None,
        },
{
    if s.len() == 0 {
        let v: Vec<u16> = Vec::new();
        assert(v@ =~= seq![]);
        Some(v)
    } else {
        groups_from_exec(s, 0, allow_v4)
    }
}

/// Computes `from_groups`.
fn from_groups_exec(g: &[u16]) -> (r: u128)
    requires
        g@.len() == 8,
    ensures
        r == from_groups(g@),
{
    (g[0] as u128) << 112u32 | (g[1] as u128) << 96u32 | (g[2] as u128) << 80u32 | (g[3] as u128)
        << 64u32 | (g[4] as u128) << 48u32 | (g[5] as u128) << 32u32 | (g[6] as u128) << 16u32 | (
    g[7] as u128)
}

/// Computes `parse_ipv6`.
fn parse_ipv6_exec(s: &[u8]) -> (r: Option<u128>)
    ensures
        r == parse_ipv6(s@),
{
    let mut k: usize = 0;
    while k < s.len() && k + 1 < s.len() && !(s[k] == COLON && s[k + 1] == COLON)
        invariant
            k <= s@.len(),
            double_colon_at(s@, 0) == double_colon_at(s@, k as int),
        decreases s@.len() - k,
    {
        k = k + 1;
    }
    let k = if k >= s.len() || k + 1 >= s.len() {
        s.len()
    } else {
        k
    };
    if k >= s.len() {
        return match groups_from_exec(s, 0, true) {
            Some(g) => {
                if g.len() == 8 {
                    Some(from_groups_exec(g.as_slice()))
                } else {
                    None
                }
            },
            None => None,
        };
    }
    let head = &s[0..k];
    let tail = &s[k + 2..s.len()];
    assert(head@ =~= s@.subrange(0, k as int));
    assert(tail@ =~= s@.subrange(k + 2, s@.len() as int));
    let h = match part_groups_exec(head, false) {
        Some(h) => h,
        None => return None,
    };
    let t = match part_groups_exec(tail, true) {
        Some(t) => t,
        None => return None,
    };
    if h.len() > 7 || t.len() > 7 - h.len() {
        return None;
    }
    let mut g: Vec<u16> = Vec::new();
    let mut i: usize = 0;
    while i < h.len()
        invariant
            i <= h@.len(),
            g@ == h@.subrange(0, i as int),
        decreases h@.len() - i,
    {
        g.push(h[i]);
        i = i + 1;
        assert(g@ =~= h@.subrange(0, i as int));
    }
    let zeros = 8 - h.len() - t.len();
    let mut i: usize = 0;
    while i < zeros
        invariant
            i <= zeros,
            zeros == 8 - h@.len() - t@.len(),
            g@ == h@ + Seq::new(i as nat, |x: int| 0u16),
        decreases zeros - i,
    {
        g.push(0);
        i = i + 1;
        assert(g@ =~= h@ + Seq::new(i as nat, |x: int| 0u16));
    }
    let mut i: usize = 0;
    while i < t.len()
        invariant
            i <= t@.len(),
            zeros == 8 - h@.len() - t@.len(),
            g@ == h@ + Seq::new(zeros as nat, |x: int| 0u16) + t@.subrange(0, i as int),
        decreases t@.len() - i,
    {
        g.push(t[i]);
        i = i + 1;
        assert(g@ =~= h@ + Seq::new(zeros as nat, |x: int| 0u16) + t@.subrange(0, i as int));
    }
    assert(t@.subrange(0, t@.len() as int) =~= t@);
    Some(from_groups_exec(g.as_slice()))
}

/// Reads the text of an IP address: a dotted quad as IPv4, else IPv6.
pub fn parse_ip_bytes(s: &[u8]) -> (r: Option<IpAddr>)
    ensures
        r == parse_ip(s@),
{
    match parse_ipv4_exec(s) {
        Some(v) => Some(IpAddr::V4(v)),
        None => match parse_ipv6_exec(s) {
            Some(v) => Some(IpAddr::V6(v)),
            None => None,
        },
    }
}

/// The digits of a number are ASCII.
proof fn lemma_digits_ascii(n: nat, hex: bool)
    ensures
        is_ascii_bytes(if hex { hex_text(n) } else { dec_text(n) }),
    decreases n,
{
    if hex && n >= 16 {
        lemma_digits_ascii(n / 16, hex);
    } else if !hex && n >= 10 {
        lemma_digits_ascii(n / 10, hex);
    }
}

proof fn lemma_join_hex_ascii(gs: Seq<u16>)
    ensures
        is_ascii_bytes(join_hex(gs)),
    decreases gs.len(),
{
    if gs.len() > 0 {
        lemma_digits_ascii(gs[0] as nat, true);
    }
    if gs.len() > 1 {
        lemma_join_hex_ascii(gs.drop_first());
    }
}

proof fn lemma_ipv4_text_ascii(v: u32)
    ensures
        is_ascii_bytes(ipv4_text(v)),
{
    lemma_digits_ascii(octet(v, 0) as nat, false);
    lemma_digits_ascii(octet(v, 1) as nat, false);
    lemma_digits_ascii(octet(v, 2) as nat, false);
    lemma_digits_ascii(octet(v, 3) as nat, false);
}

/// The text of an address is ASCII.
pub proof fn lemma_ip_text_ascii(a: IpAddr)
    ensures
        is_ascii_bytes(ip_text(a)),
{
    match a {
        IpAddr::V4(v) => lemma_ipv4_text_ascii(v),
        IpAddr::V6(v) => {
            let gs = segments(v);
            lemma_ipv4_text_ascii((v & 0xffff_ffff) as u32);
            lemma_join_hex_ascii(gs);
            lemma_join_hex_ascii(gs.take(best_run(gs, 0)));
            lemma_join_hex_ascii(gs.skip(best_run(gs, 0) + zeros_from(gs, best_run(gs, 0))));
        },
    }
}

/// The text of an IP address.
pub fn ip_to_string(a: IpAddr) -> (s: String)
    ensures
        s@ == decode_utf8(ip_text(a)),
        encode_utf8(s@) == ip_text(a),
{
    let bytes = ip_text_bytes(a);
    proof {
        lemma_ip_text_ascii(a);
    }
    ascii_to_string(bytes.as_slice())
}

/// Reads the text of an IP address.
pub fn parse_ip_str(s: &str) -> (r: Option<IpAddr>)
    ensures
        r == parse_ip(encode_utf8(s@)),
{
    parse_ip_bytes(s.as_bytes())
}

} // verus!
