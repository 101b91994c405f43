//! Reading back the text of an address gives the address.
use vstd::prelude::*;

use super::{
    COLON, DOT, IpAddr, best_run, dec_octet, dec_text, digit_char, digit_value, digits_value,
    double_colon_at, from_groups, from_octets, groups_from, hex_group, hex_text, ip_text,
    ipv4_text, ipv6_text, is_dec_digit, is_hex_digit, is_ipv4_mapped, join_hex, next_index_of,
    octet, octets_from, parse_ip, parse_ipv4, parse_ipv6, part_groups, segment, segments,
    v4_groups, zeros_from, lemma_next_index_of_bounds,
};

verus! {

proof fn lemma_digit_char_value(k: nat)
    requires
        k < 16,
    ensures
        is_hex_digit(digit_char(k)),
        k < 10 ==> is_dec_digit(digit_char(k)),
        digit_value(digit_char(k)) == k,
        digit_char(k) != COLON,
        digit_char(k) != DOT,
        k > 0 ==> digit_char(k) != 48,
{
}

proof fn lemma_digits_value_push(s: Seq<u8>, d: u8, base: nat)
    ensures
        digits_value(s.push(d), base) == digits_value(s, base) * base + digit_value(d),
{
    assert(s.push(d).drop_last() =~= s);
}

/// The decimal text of a number: digits, no leading zero, its value.
proof fn lemma_dec_text(n: nat)
    ensures
        1 <= dec_text(n).len(),
        n < 10 <==> dec_text(n).len() == 1,
        n < 100 ==> dec_text(n).len() <= 2,
        n < 1000 ==> dec_text(n).len() <= 3,
        forall|i: int| 0 <= i < dec_text(n).len() ==> is_dec_digit(#[trigger] dec_text(n)[i]),
        dec_text(n).len() > 1 ==> dec_text(n)[0] != 48,
        digits_value(dec_text(n), 10) == n,
    decreases n,
{
    if n < 10 {
        lemma_digit_char_value(n);
        lemma_digits_value_push(Seq::<u8>::empty(), digit_char(n), 10);
        assert(Seq::<u8>::empty().push(digit_char(n)) =~= seq![digit_char(n)]);
    } else {
        lemma_dec_text(n / 10);
        lemma_digit_char_value(n % 10);
        let s = dec_text(n / 10);
        lemma_digits_value_push(s, digit_char(n % 10), 10);
        assert((n / 10) * 10 + n % 10 == n) by (nonlinear_arith);
        assert(dec_text(n)[0] == s[0]);
        if s.len() == 1 {
            lemma_digit_char_value(n / 10);
        }
    }
}

/// The hexadecimal text of a number: digits, its value.
proof fn lemma_hex_text(n: nat)
    ensures
        1 <= hex_text(n).len(),
        n < 16 ==> hex_text(n).len() == 1,
        n < 256 ==> hex_text(n).len() <= 2,
        n < 4096 ==> hex_text(n).len() <= 3,
        n < 65536 ==> hex_text(n).len() <= 4,
        forall|i: int| 0 <= i < hex_text(n).len() ==> is_hex_digit(#[trigger] hex_text(n)[i]),
        forall|i: int| 0 <= i < hex_text(n).len() ==> #[trigger] hex_text(n)[i] != COLON,
        forall|i: int| 0 <= i < hex_text(n).len() ==> #[trigger] hex_text(n)[i] != DOT,
        digits_value(hex_text(n), 16) == n,
    decreases n,
{
    if n < 16 {
        lemma_digit_char_value(n);
        lemma_digits_value_push(Seq::<u8>::empty(), digit_char(n), 16);
        assert(Seq::<u8>::empty().push(digit_char(n)) =~= seq![digit_char(n)]);
    } else {
        lemma_hex_text(n / 16);
        lemma_digit_char_value(n % 16);
        lemma_digits_value_push(hex_text(n / 16), digit_char(n % 16), 16);
        assert((n / 16) * 16 + n % 16 == n) by (nonlinear_arith);
    }
}

proof fn lemma_hex_group_of_text(g: u16)
    ensures
        hex_group(hex_text(g as nat)) == Some(g),
{
    lemma_hex_text(g as nat);
}

proof fn lemma_dec_octet_of_text(o: u8)
    ensures
        dec_octet(dec_text(o as nat)) == Some(o),
{
    lemma_dec_text(o as nat);
}

/// `next_index_of` finds the first `b` at or after `i`.
proof fn lemma_next_index_found(s: Seq<u8>, i: int, k: int, b: u8)
    requires
        0 <= i <= k <= s.len(),
        forall|m: int| i <= m < k ==> s[m] != b,
        k == s.len() || s[k] == b,
    ensures
        next_index_of(s, i, b) == k,
    decreases k - i,
{
    if i < k {
        lemma_next_index_found(s, i + 1, k, b);
    }
}

/// A text without `.` is no dotted quad.
proof fn lemma_no_dot_not_ipv4(f: Seq<u8>)
    requires
        forall|m: int| 0 <= m < f.len() ==> f[m] != DOT,
    ensures
        parse_ipv4(f) is None,
{
    lemma_next_index_found(f, 0, f.len() as int, DOT);
}

/// The shape of hexadecimal groups joined by `:`: no `.`, no two `:` in a
/// row, and neither starting nor ending with `:`.
proof fn lemma_join_hex_shape(gs: Seq<u16>)
    ensures
        gs.len() > 0 ==> join_hex(gs).len() > 0,
        gs.len() > 0 ==> join_hex(gs)[0] != COLON,
        gs.len() > 0 ==> join_hex(gs).last() != COLON,
        forall|m: int| 0 <= m < join_hex(gs).len() ==> #[trigger] join_hex(gs)[m] != DOT,
        forall|m: int|
            0 <= m < join_hex(gs).len() - 1 ==> !(#[trigger] join_hex(gs)[m] == COLON && join_hex(
                gs,
            )[m + 1] == COLON),
    decreases gs.len(),
{
    if gs.len() == 0 {
    } else if gs.len() == 1 {
        lemma_hex_text(gs[0] as nat);
    } else {
        let h = hex_text(gs[0] as nat);
        let rest = join_hex(gs.drop_first());
        lemma_hex_text(gs[0] as nat);
        lemma_join_hex_shape(gs.drop_first());
        let j = join_hex(gs);
        assert(j =~= h + seq![COLON] + rest);
        assert forall|m: int| 0 <= m < j.len() implies #[trigger] j[m] != DOT by {
            if m < h.len() {
                assert(j[m] == h[m]);
            } else if m > h.len() {
                assert(j[m] == rest[m - h.len() - 1]);
            }
        }
        assert forall|m: int| 0 <= m < j.len() - 1 implies !(#[trigger] j[m] == COLON && j[m + 1]
            == COLON) by {
            if m < h.len() {
                assert(j[m] == h[m]);
            } else if m == h.len() {
                assert(j[m + 1] == rest[0]);
            } else {
                assert(j[m] == rest[m - h.len() - 1]);
                assert(j[m + 1] == rest[m + 1 - h.len() - 1]);
            }
        }
        assert(j[0] == h[0]);
        assert(j.last() == rest.last());
    }
}

/// Reading the groups back from their joined text.
proof fn lemma_groups_from_join(s: Seq<u8>, i: int, gs: Seq<u16>, allow_v4: bool)
    requires
        0 <= i <= s.len(),
        gs.len() >= 1,
        s.subrange(i, s.len() as int) == join_hex(gs),
    ensures
        groups_from(s, i, allow_v4) == Some(gs),
    decreases gs.len(),
{
    let h = hex_text(gs[0] as nat);
    let j = join_hex(gs);
    lemma_hex_text(gs[0] as nat);
    lemma_hex_group_of_text(gs[0]);
    let k = i + h.len();
    assert forall|m: int| 0 <= m < j.len() implies s[i + m] == #[trigger] j[m] by {
        assert(s.subrange(i, s.len() as int)[m] == s[i + m]);
    }
    if gs.len() == 1 {
        assert(j == h);
        assert forall|m: int| i <= m < k implies s[m] != COLON by {
            assert(s[i + (m - i)] == j[m - i]);
        }
        lemma_next_index_found(s, i, k, COLON);
        assert(s.subrange(i, k) =~= h);
        lemma_no_dot_not_ipv4(h);
        assert(seq![gs[0]] =~= gs);
    } else {
        let rest = gs.drop_first();
        let jr = join_hex(rest);
        assert(j =~= h + seq![COLON] + jr);
        assert forall|m: int| i <= m < k implies s[m] != COLON by {
            assert(s[i + (m - i)] == j[m - i]);
            assert(j[m - i] == h[m - i]);
        }
        assert(s[k] == j[h.len() as int]);
        lemma_next_index_found(s, i, k, COLON);
        assert(s.subrange(i, k) =~= h) by {
            assert forall|m: int| 0 <= m < h.len() implies s.subrange(i, k)[m] == h[m] by {
                assert(s[i + m] == j[m]);
            }
        }
        assert(s.subrange(k + 1, s.len() as int) =~= jr) by {
            assert forall|m: int| 0 <= m < jr.len() implies s.subrange(k + 1, s.len() as int)[m]
                == jr[m] by {
                assert(s[i + (h.len() + 1 + m)] == j[h.len() + 1 + m]);
            }
        }
        lemma_groups_from_join(s, k + 1, rest, allow_v4);
        assert(seq![gs[0]] + rest =~= gs);
    }
}

/// The groups of joined text, as `part_groups` reads them.
proof fn lemma_part_groups_join(gs: Seq<u16>, allow_v4: bool)
    ensures
        part_groups(join_hex(gs), allow_v4) == Some(gs),
{
    lemma_join_hex_shape(gs);
    if gs.len() == 0 {
        assert(gs =~= Seq::<u16>::empty());
    } else {
        let j = join_hex(gs);
        assert(j.subrange(0, j.len() as int) =~= j);
        lemma_groups_from_join(j, 0, gs, allow_v4);
    }
}

/// `double_colon_at` finds the first `::` at or after `i`.
proof fn lemma_double_colon_found(s: Seq<u8>, i: int, k: int)
    requires
        0 <= i <= k,
        k + 1 < s.len(),
        s[k] == COLON && s[k + 1] == COLON,
        forall|m: int| i <= m < k ==> !(s[m] == COLON && #[trigger] s[m + 1] == COLON),
    ensures
        double_colon_at(s, i) == k,
    decreases k - i,
{
    if i < k {
        lemma_double_colon_found(s, i + 1, k);
    }
}

/// Without `::` from `i` on, `double_colon_at` gives the length.
proof fn lemma_double_colon_none(s: Seq<u8>, i: int)
    requires
        0 <= i,
        forall|m: int| i <= m < s.len() - 1 ==> !(s[m] == COLON && #[trigger] s[m + 1] == COLON),
    ensures
        double_colon_at(s, i) == s.len(),
    decreases s.len() - i,
{
    if i + 1 < s.len() {
        lemma_double_colon_none(s, i + 1);
    }
}

/// The dotted quad of an IPv4 address reads back as that address.
pub proof fn lemma_ipv4_roundtrip(v: u32)
    ensures
        parse_ipv4(ipv4_text(v)) == Some(v),
{
    let o0 = octet(v, 0);
    let o1 = octet(v, 1);
    let o2 = octet(v, 2);
    let o3 = octet(v, 3);
    let a = dec_text(o0 as nat);
    let b = dec_text(o1 as nat);
    let c = dec_text(o2 as nat);
    let d = dec_text(o3 as nat);
    lemma_dec_text(o0 as nat);
    lemma_dec_text(o1 as nat);
    lemma_dec_text(o2 as nat);
    lemma_dec_text(o3 as nat);
    lemma_dec_octet_of_text(o0);
    lemma_dec_octet_of_text(o1);
    lemma_dec_octet_of_text(o2);
    lemma_dec_octet_of_text(o3);
    let t = ipv4_text(v);
    let p1 = a.len() as int;
    let p2 = p1 + 1 + b.len();
    let p3 = p2 + 1 + c.len();
    assert(t.len() == p3 + 1 + d.len());
    assert(forall|m: int| 0 <= m < a.len() ==> t[m] == a[m]);
    assert(forall|m: int| 0 <= m < b.len() ==> t[p1 + 1 + m] == b[m]);
    assert(forall|m: int| 0 <= m < c.len() ==> t[p2 + 1 + m] == c[m]);
    assert(forall|m: int| 0 <= m < d.len() ==> t[p3 + 1 + m] == d[m]);
    assert(t[p1] == DOT && t[p2] == DOT && t[p3] == DOT);
    assert forall|m: int| 0 <= m < p1 implies t[m] != DOT by {
        assert(is_dec_digit(a[m]));
    }
    assert forall|m: int| p1 + 1 <= m < p2 implies t[m] != DOT by {
        assert(t[p1 + 1 + (m - p1 - 1)] == b[m - p1 - 1]);
        assert(is_dec_digit(b[m - p1 - 1]));
    }
    assert forall|m: int| p2 + 1 <= m < p3 implies t[m] != DOT by {
        assert(t[p2 + 1 + (m - p2 - 1)] == c[m - p2 - 1]);
        assert(is_dec_digit(c[m - p2 - 1]));
    }
    assert forall|m: int| p3 + 1 <= m < t.len() implies t[m] != DOT by {
        assert(t[p3 + 1 + (m - p3 - 1)] == d[m - p3 - 1]);
        assert(is_dec_digit(d[m - p3 - 1]));
    }
    lemma_next_index_found(t, 0, p1, DOT);
    lemma_next_index_found(t, p1 + 1, p2, DOT);
    lemma_next_index_found(t, p2 + 1, p3, DOT);
    lemma_next_index_found(t, p3 + 1, t.len() as int, DOT);
    assert(t.subrange(0, p1) =~= a);
    assert(t.subrange(p1 + 1, p2) =~= b);
    assert(t.subrange(p2 + 1, p3) =~= c);
    assert(t.subrange(p3 + 1, t.len() as int) =~= d);
    assert(octets_from(t, p3 + 1) == Some(seq![o3]));
    assert(octets_from(t, p2 + 1) == Some(seq![o2] + seq![o3]));
    assert(octets_from(t, p1 + 1) == Some(seq![o1] + (seq![o2] + seq![o3])));
    assert(octets_from(t, 0) == Some(seq![o0] + (seq![o1] + (seq![o2] + seq![o3]))));
    let os = seq![o0] + (seq![o1] + (seq![o2] + seq![o3]));
    assert(os =~= seq![o0, o1, o2, o3]);
    assert(((((v >> 24u32) & 0xff) as u8) as u32) << 24u32 | ((((v >> 16u32) & 0xff) as u8) as u32)
        << 16u32 | ((((v >> 8u32) & 0xff) as u8) as u32) << 8u32 | ((((v >> 0u32) & 0xff) as u8) as u32)
        == v) by (bit_vector);
    assert(from_octets(os) == v);
}

proof fn lemma_zeros_from(gs: Seq<u16>, i: int)
    requires
        0 <= i,
    ensures
        zeros_from(gs, i) > 0 ==> i + zeros_from(gs, i) <= gs.len(),
        forall|m: int| i <= m < i + zeros_from(gs, i) ==> gs[m] == 0,
    decreases gs.len() - i,
{
    if i < gs.len() && gs[i] == 0 {
        lemma_zeros_from(gs, i + 1);
    }
}

proof fn lemma_best_run_bounds(gs: Seq<u16>, i: int)
    requires
        0 <= i < gs.len(),
    ensures
        i <= best_run(gs, i) < gs.len(),
    decreases gs.len() - i,
{
    if i < gs.len() - 1 {
        lemma_best_run_bounds(gs, i + 1);
    }
}

proof fn lemma_segments_value(v: u128)
    ensures
        from_groups(segments(v)) == v,
{
    let gs = segments(v);
    assert(gs[0] == segment(v, 0) && gs[1] == segment(v, 1) && gs[2] == segment(v, 2) && gs[3]
        == segment(v, 3) && gs[4] == segment(v, 4) && gs[5] == segment(v, 5) && gs[6] == segment(v, 6)
        && gs[7] == segment(v, 7));
    assert(((((v >> 112u32) & 0xffff) as u16) as u128) << 112u32 | ((((v >> 96u32) & 0xffff) as u16)
        as u128) << 96u32 | ((((v >> 80u32) & 0xffff) as u16) as u128) << 80u32 | ((((v >> 64u32)
        & 0xffff) as u16) as u128) << 64u32 | ((((v >> 48u32) & 0xffff) as u16) as u128) << 48u32 | ((((v
        >> 32u32) & 0xffff) as u16) as u128) << 32u32 | ((((v >> 16u32) & 0xffff) as u16) as u128)
        << 16u32 | ((((v >> 0u32) & 0xffff) as u16) as u128) == v) by (bit_vector);
}

/// The text of an IPv6 address reads back as that address, and never as
/// IPv4.
pub proof fn lemma_ipv6_roundtrip(v: u128)
    ensures
        parse_ipv4(ipv6_text(v)) is None,
        parse_ipv6(ipv6_text(v)) == Some(v),
{
    let gs = segments(v);
    let t = ipv6_text(v);
    if is_ipv4_mapped(v) {
        let w = (v & 0xffff_ffff) as u32;
        let q = ipv4_text(w);
        let pre = seq![COLON, COLON, 102u8, 102u8, 102u8, 102u8, COLON];
        assert(t == pre + q);
        // never IPv4: the first field starts with `:`
        lemma_next_index_of_bounds(t, 1, DOT);
        assert(next_index_of(t, 0, DOT) == next_index_of(t, 1, DOT));
        let j = next_index_of(t, 0, DOT);
        assert(t.subrange(0, j)[0] == COLON);
        assert(dec_octet(t.subrange(0, j)) is None);
        // IPv6: `::` first, then `ffff` and the dotted quad
        lemma_double_colon_found(t, 0, 0);
        let tail = t.subrange(2, t.len() as int);
        assert(tail =~= seq![102u8, 102u8, 102u8, 102u8, COLON] + q);
        assert(t.subrange(0, 0) =~= Seq::<u8>::empty());
        lemma_hex_group_of_text(0xffff);
        reveal_with_fuel(hex_text, 4);
        assert(hex_text(0xffff) =~= seq![102u8, 102u8, 102u8, 102u8]);
        lemma_next_index_found(tail, 0, 4, COLON);
        assert(tail.subrange(0, 4) =~= hex_text(0xffff));
        let rest = tail.subrange(5, tail.len() as int);
        assert(rest =~= q);
        lemma_ipv4_roundtrip(w);
        lemma_dec_text(octet(w, 0) as nat);
        lemma_dec_text(octet(w, 1) as nat);
        lemma_dec_text(octet(w, 2) as nat);
        lemma_dec_text(octet(w, 3) as nat);
        assert forall|m: int| 5 <= m < tail.len() implies tail[m] != COLON by {
            assert(tail[m] == q[m - 5]);
            let a = dec_text(octet(w, 0) as nat);
            let b = dec_text(octet(w, 1) as nat);
            let c = dec_text(octet(w, 2) as nat);
            let d = dec_text(octet(w, 3) as nat);
            let k = m - 5;
            if k < a.len() {
                assert(q[k] == a[k]);
            } else if k == a.len() {
            } else if k < a.len() + 1 + b.len() {
                assert(q[k] == b[k - a.len() - 1]);
            } else if k == a.len() + 1 + b.len() {
            } else if k < a.len() + 2 + b.len() + c.len() {
                assert(q[k] == c[k - a.len() - 2 - b.len()]);
            } else if k == a.len() + 2 + b.len() + c.len() {
            } else {
                assert(q[k] == d[k - a.len() - 3 - b.len() - c.len()]);
            }
        }
        lemma_next_index_found(tail, 5, tail.len() as int, COLON);
        assert(tail.subrange(5, tail.len() as int) =~= q);
        assert(groups_from(tail, 5, true) == Some(v4_groups(w)));
        assert(groups_from(tail, 0, true) == Some(seq![0xffffu16] + v4_groups(w)));
        let h = Seq::<u16>::empty();
        let tg = seq![0xffffu16] + v4_groups(w);
        assert(part_groups(t.subrange(0, 0), false) == Some(h));
        assert(part_groups(tail, true) == Some(tg));
        let all = h + Seq::new(5, |i: int| 0u16) + tg;
        assert(all[0] == 0 && all[1] == 0 && all[2] == 0 && all[3] == 0 && all[4] == 0);
        assert(all[5] == 0xffff && all[6] == (w >> 16u32) as u16 && all[7] == (w & 0xffff) as u16);
        assert(segment(v, 0) == 0 && segment(v, 1) == 0 && segment(v, 2) == 0 && segment(v, 3) == 0
            && segment(v, 4) == 0 && segment(v, 5) == 0xffff);
        assert((0u16 as u128) << 112u32 | (0u16 as u128) << 96u32 | (0u16 as u128) << 80u32 | (0u16
            as u128) << 64u32 | (0u16 as u128) << 48u32 | (0xffffu16 as u128) << 32u32 | ((((v
            & 0xffff_ffff) as u32) >> 16u32) as u16 as u128) << 16u32 | ((((v & 0xffff_ffff) as u32)
            & 0xffff) as u16 as u128) == v) by (bit_vector)
            requires
                ((v >> 112u32) & 0xffff) as u16 == 0,
                ((v >> 96u32) & 0xffff) as u16 == 0,
                ((v >> 80u32) & 0xffff) as u16 == 0,
                ((v >> 64u32) & 0xffff) as u16 == 0,
                ((v >> 48u32) & 0xffff) as u16 == 0,
                ((v >> 32u32) & 0xffff) as u16 == 0xffff,
        ;
        assert(from_groups(all) == v);
    } else {
        let s = best_run(gs, 0);
        let l = zeros_from(gs, s);
        lemma_best_run_bounds(gs, 0);
        lemma_zeros_from(gs, s);
        if l > 1 {
            let head = gs.take(s);
            let tailg = gs.skip(s + l);
            let j1 = join_hex(head);
            let j2 = join_hex(tailg);
            lemma_join_hex_shape(head);
            lemma_join_hex_shape(tailg);
            assert(t == j1 + seq![COLON, COLON] + j2);
            let k = j1.len() as int;
            assert forall|m: int| 0 <= m < t.len() implies #[trigger] t[m] != DOT by {
                if m < k {
                    assert(t[m] == j1[m]);
                } else if m >= k + 2 {
                    assert(t[m] == j2[m - k - 2]);
                }
            }
            lemma_no_dot_not_ipv4(t);
            assert forall|m: int| 0 <= m < k implies !(t[m] == COLON && #[trigger] t[m + 1] == COLON) by {
                assert(t[m] == j1[m]);
                if m + 1 < k {
                    assert(t[m + 1] == j1[m + 1]);
                } else {
                    assert(j1[m] == j1.last());
                }
            }
            lemma_double_colon_found(t, 0, k);
            assert(t.subrange(0, k) =~= j1);
            assert(t.subrange(k + 2, t.len() as int) =~= j2);
            lemma_part_groups_join(head, false);
            lemma_part_groups_join(tailg, true);
            let all = head + Seq::new((8 - head.len() - tailg.len()) as nat, |i: int| 0u16) + tailg;
            assert(all =~= gs);
            lemma_segments_value(v);
        } else {
            lemma_join_hex_shape(gs);
            assert(t == join_hex(gs));
            lemma_no_dot_not_ipv4(t);
            lemma_double_colon_none(t, 0);
            assert(t.subrange(0, t.len() as int) =~= t);
            lemma_groups_from_join(t, 0, gs, true);
            lemma_segments_value(v);
        }
    }
}

/// Reading back the text of an IP address gives the address.
pub proof fn lemma_ip_text_roundtrip(a: IpAddr)
    ensures
        parse_ip(ip_text(a)) == Some(a),
{
    match a {
        IpAddr::V4(v) => lemma_ipv4_roundtrip(v),
        IpAddr::V6(v) => lemma_ipv6_roundtrip(v),
    }
}

} // verus!
