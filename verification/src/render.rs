//! Verified text rendering: decimal and hexadecimal numbers, dotted IPv4
//! addresses, colon-separated hardware addresses and capture timestamps.
//! Every executable function is pinned to a spec-level mirror of the format.

use vstd::prelude::*;
use vstd::string::*;

verus! {

/// Relies on String::push: appending one character appends exactly that
/// character to the string.
pub assume_specification[ String::push ](s: &mut String, c: char)
    ensures
        final(s)@ == old(s)@.push(c),
;

/// Relies on str::from_utf8: it succeeds exactly on valid UTF-8, and the
/// resulting text decodes those bytes (vstd models a `str`'s bytes as the
/// UTF-8 encoding of its characters).
#[verifier::external_body]
pub fn utf8_to_string(v: &[u8]) -> (r: Option<String>)
    ensures
        r is Some <==> vstd::utf8::valid_utf8(v@),
        r matches Some(s) ==> s@ == vstd::utf8::decode_utf8(v@),
{
    match core::str::from_utf8(v) {
        Ok(s) => Some(s.to_string()),
        Err(_) => None,
    }
}

/// Collects a string's characters into a vector.
pub fn chars_vec(s: &str) -> (v: Vec<char>)
    ensures
        v@ == s@,
{
    broadcast use vstd::string::group_string_axioms;

    let mut it = s.chars();
    let mut v: Vec<char> = Vec::new();
    loop
        invariant
            vstd::std_specs::iter::IteratorSpec::obeys_prophetic_iter_laws(&it),
            v@ + vstd::std_specs::iter::IteratorSpec::remaining(&it) == s@,
        decreases s@.len() - v@.len(),
    {
        let ghost pre = v@;
        let ghost rem = vstd::std_specs::iter::IteratorSpec::remaining(&it);
        match it.next() {
            Some(c) => {
                v.push(c);
                proof {
                    assert(pre.push(c) + rem.drop_first() =~= pre + rem);
                }
            },
            None => {
                proof {
                    assert(v@ =~= s@);
                }
                return v;
            },
        }
    }
}

/// Renders a range of a character vector as a string.
pub fn chars_to_string(v: &[char], from: usize, to: usize) -> (s: String)
    requires
        from <= to <= v@.len(),
    ensures
        s@ == v@.subrange(from as int, to as int),
{
    let mut s = String::new();
    let mut i: usize = from;
    while i < to
        invariant
            from <= i <= to <= v@.len(),
            s@ == v@.subrange(from as int, i as int),
        decreases to - i,
    {
        s.push(v[i]);
        proof {
            assert(v@.subrange(from as int, i as int).push(v@[i as int]) =~= v@.subrange(
                from as int,
                i as int + 1,
            ));
        }
        i = i + 1;
    }
    s
}

/// The characters of a sequence of ASCII bytes, one per byte.
pub open spec fn ascii_chars(s: Seq<u8>) -> Seq<char> {
    Seq::new(s.len(), |i: int| s[i] as char)
}

/// Converts ASCII bytes to the string of their characters.
pub fn ascii_to_string(bytes: &[u8]) -> (s: String)
    requires
        forall|i: int| 0 <= i < bytes@.len() ==> bytes@[i] < 128,
    ensures
        s@ == ascii_chars(bytes@),
{
    let n = bytes.len();
    let mut s = String::new();
    let mut i: usize = 0;
    while i < n
        invariant
            i <= n,
            n == bytes@.len(),
            forall|k: int| 0 <= k < bytes@.len() ==> bytes@[k] < 128,
            s@ == ascii_chars(bytes@.subrange(0, i as int)),
        decreases n - i,
    {
        s.push(bytes[i] as char);
        proof {
            assert(ascii_chars(bytes@.subrange(0, i as int)).push(bytes@[i as int] as char)
                =~= ascii_chars(bytes@.subrange(0, i as int + 1)));
        }
        i = i + 1;
    }
    proof {
        assert(bytes@.subrange(0, n as int) =~= bytes@);
    }
    s
}

/// The decimal digit character for a value below ten.
pub open spec fn dec_digit(d: nat) -> char
    recommends
        d < 10,
{
    "0123456789"@[d as int]
}

/// Decimal rendering of a natural number, most significant digit first.
pub open spec fn spec_dec(n: nat) -> Seq<char>
    decreases n,
{
    if n < 10 {
        seq![dec_digit(n)]
    } else {
        spec_dec(n / 10) + seq![dec_digit(n % 10)]
    }
}

/// The lower-case hexadecimal digit character for a value below sixteen.
pub open spec fn hex_digit(d: nat) -> char
    recommends
        d < 16,
{
    "0123456789abcdef"@[d as int]
}

/// The upper-case hexadecimal digit character for a value below sixteen.
pub open spec fn hex_digit_upper(d: nat) -> char
    recommends
        d < 16,
{
    "0123456789ABCDEF"@[d as int]
}

/// Two lower-case hexadecimal digits of a byte.
pub open spec fn spec_hex2(n: nat) -> Seq<char>
    recommends
        n < 256,
{
    seq![hex_digit(n / 16), hex_digit(n % 16)]
}

/// Two upper-case hexadecimal digits of a byte.
pub open spec fn spec_hex2_upper(n: nat) -> Seq<char>
    recommends
        n < 256,
{
    seq![hex_digit_upper(n / 16), hex_digit_upper(n % 16)]
}

/// Four lower-case hexadecimal digits of a sixteen-bit value.
pub open spec fn spec_hex4(n: nat) -> Seq<char>
    recommends
        n < 65536,
{
    seq![
        hex_digit(n / 4096 % 16),
        hex_digit(n / 256 % 16),
        hex_digit(n / 16 % 16),
        hex_digit(n % 16),
    ]
}

fn digit_str(d: u64) -> (r: &'static str)
    requires
        d < 10,
    ensures
        r@ =~= seq![dec_digit(d as nat)],
{
    let s = "0123456789";
    proof {
        reveal_strlit("0123456789");
    }
    s.substring_ascii(d as usize, d as usize + 1)
}

fn hex_str(d: u64, upper: bool) -> (r: &'static str)
    requires
        d < 16,
    ensures
        upper ==> r@ =~= seq![hex_digit_upper(d as nat)],
        !upper ==> r@ =~= seq![hex_digit(d as nat)],
{
    if upper {
        let s = "0123456789ABCDEF";
        proof {
            reveal_strlit("0123456789ABCDEF");
        }
        s.substring_ascii(d as usize, d as usize + 1)
    } else {
        let s = "0123456789abcdef";
        proof {
            reveal_strlit("0123456789abcdef");
        }
        s.substring_ascii(d as usize, d as usize + 1)
    }
}

/// Renders a number in decimal.
pub fn dec_u64(n: u64) -> (s: String)
    ensures
        s@ == spec_dec(n as nat),
    decreases n,
{
    if n < 10 {
        String::from_str(digit_str(n))
    } else {
        let mut s = dec_u64(n / 10);
        s.append(digit_str(n % 10));
        s
    }
}

/// Renders a length or count in decimal.
pub fn dec_usize(n: usize) -> (s: String)
    ensures
        s@ == spec_dec(n as nat),
{
    dec_u64(n as u64)
}

/// Renders a byte as two lower-case hexadecimal digits.
pub fn hex2_u8(n: u8) -> (s: String)
    ensures
        s@ == spec_hex2(n as nat),
{
    let mut s = String::from_str(hex_str(n as u64 / 16, false));
    s.append(hex_str(n as u64 % 16, false));
    s
}

/// Renders a byte as two upper-case hexadecimal digits.
pub fn hex2_u8_upper(n: u8) -> (s: String)
    ensures
        s@ == spec_hex2_upper(n as nat),
{
    let mut s = String::from_str(hex_str(n as u64 / 16, true));
    s.append(hex_str(n as u64 % 16, true));
    s
}

/// Renders a sixteen-bit value as four lower-case hexadecimal digits.
pub fn hex4_u16(n: u16) -> (s: String)
    ensures
        s@ == spec_hex4(n as nat),
{
    let mut s = String::from_str(hex_str(n as u64 / 4096 % 16, false));
    s.append(hex_str(n as u64 / 256 % 16, false));
    s.append(hex_str(n as u64 / 16 % 16, false));
    s.append(hex_str(n as u64 % 16, false));
    s
}

/// Dotted-quad rendering of an IPv4 address.
pub open spec fn spec_ipv4(a: u8, b: u8, c: u8, d: u8) -> Seq<char> {
    spec_dec(a as nat) + seq!['.'] + spec_dec(b as nat) + seq!['.'] + spec_dec(c as nat)
        + seq!['.'] + spec_dec(d as nat)
}

/// Renders an IPv4 address as a dotted quad.
pub fn ipv4_string(a: u8, b: u8, c: u8, d: u8) -> (s: String)
    ensures
        s@ == spec_ipv4(a, b, c, d),
{
    proof {
        reveal_strlit(".");
    }
    let mut s = dec_u64(a as u64);
    s.append(".");
    let sb = dec_u64(b as u64);
    s.append(sb.as_str());
    s.append(".");
    let sc = dec_u64(c as u64);
    s.append(sc.as_str());
    s.append(".");
    let sd = dec_u64(d as u64);
    s.append(sd.as_str());
    proof {
        assert(s@ =~= spec_ipv4(a, b, c, d));
    }
    s
}

/// Whether every byte of the sequence is zero.
pub open spec fn all_zero(s: Seq<u8>) -> bool {
    forall|i: int| 0 <= i < s.len() ==> s[i] == 0
}

/// Hexadecimal bytes joined by colons.
pub open spec fn spec_mac_body(s: Seq<u8>) -> Seq<char>
    decreases s.len(),
{
    if s.len() == 0 {
        Seq::empty()
    } else if s.len() == 1 {
        spec_hex2(s[0] as nat)
    } else {
        spec_hex2(s[0] as nat) + seq![':'] + spec_mac_body(s.drop_first())
    }
}

/// Rendering of a hardware address: `Broadcast` when every byte is zero,
/// otherwise hexadecimal bytes joined by colons.
pub open spec fn spec_format_mac(s: Seq<u8>) -> Seq<char> {
    if all_zero(s) {
        "Broadcast"@
    } else {
        spec_mac_body(s)
    }
}

fn mac_body(mac: &[u8], i: usize) -> (s: String)
    requires
        i <= mac@.len(),
    ensures
        s@ == spec_mac_body(mac@.skip(i as int)),
    decreases mac@.len() - i,
{
    proof {
        reveal_strlit(":");
    }
    if i == mac.len() {
        String::new()
    } else if i + 1 == mac.len() {
        let s = hex2_u8(mac[i]);
        proof {
            assert(mac@.skip(i as int) =~= seq![mac@[i as int]]);
        }
        s
    } else {
        let mut s = hex2_u8(mac[i]);
        s.append(":");
        let rest = mac_body(mac, i + 1);
        s.append(rest.as_str());
        proof {
            assert(mac@.skip(i as int).drop_first() =~= mac@.skip(i as int + 1));
            assert(mac@.skip(i as int)[0] == mac@[i as int]);
        }
        s
    }
}

/// Renders a hardware address; an all-zero address reads `Broadcast`.
pub fn format_mac(mac: &[u8]) -> (s: String)
    ensures
        s@ == spec_format_mac(mac@),
{
    let mut zero = true;
    let mut i: usize = 0;
    while i < mac.len()
        invariant
            i <= mac@.len(),
            zero == (forall|k: int| 0 <= k < i ==> mac@[k] == 0),
        decreases mac@.len() - i,
    {
        if mac[i] != 0 {
            zero = false;
        }
        i = i + 1;
    }
    if zero {
        String::from_str("Broadcast")
    } else {
        proof {
            assert(mac@.skip(0) =~= mac@);
        }
        mac_body(mac, 0)
    }
}

/// Hexadecimal rendering of a natural number without leading zeros.
pub open spec fn spec_hexnum(n: nat) -> Seq<char>
    decreases n,
{
    if n < 16 {
        seq![hex_digit(n)]
    } else {
        spec_hexnum(n / 16) + seq![hex_digit(n % 16)]
    }
}

/// Renders a number in hexadecimal without leading zeros.
pub fn hexnum_u16(n: u16) -> (s: String)
    ensures
        s@ == spec_hexnum(n as nat),
    decreases n,
{
    if n < 16 {
        String::from_str(hex_str(n as u64, false))
    } else {
        let mut s = hexnum_u16(n / 16);
        s.append(hex_str(n as u64 % 16, false));
        s
    }
}

/// The length of the run of zero groups starting at `i`.
pub open spec fn spec_zero_run_at(gs: Seq<u16>, i: int) -> nat
    decreases gs.len() - i,
{
    if i < 0 || i >= gs.len() || gs[i] != 0 {
        0
    } else {
        1 + spec_zero_run_at(gs, i + 1)
    }
}

/// The first longest run of zero groups at or after `i`: its start and
/// length.
pub open spec fn spec_best_zero_run(gs: Seq<u16>, i: int) -> (int, nat)
    decreases gs.len() - i,
{
    if i < 0 || i >= gs.len() {
        (i, 0)
    } else {
        let cur = spec_zero_run_at(gs, i);
        let best = spec_best_zero_run(gs, i + 1);
        if cur >= best.1 {
            (i, cur)
        } else {
            best
        }
    }
}

/// Address groups in hexadecimal, joined by colons.
pub open spec fn spec_groups_colon(gs: Seq<u16>) -> Seq<char>
    decreases gs.len(),
{
    if gs.len() == 0 {
        Seq::empty()
    } else if gs.len() == 1 {
        spec_hexnum(gs[0] as nat)
    } else {
        spec_hexnum(gs[0] as nat) + seq![':'] + spec_groups_colon(gs.drop_first())
    }
}

/// Whether the eight groups are an IPv4-mapped address.
pub open spec fn spec_ipv6_is_mapped(gs: Seq<u16>) -> bool
    recommends
        gs.len() == 8,
{
    gs[0] == 0 && gs[1] == 0 && gs[2] == 0 && gs[3] == 0 && gs[4] == 0 && gs[5] == 0xffff
}

/// Textual rendering of an IPv6 address: an IPv4-mapped address renders
/// through its dotted quad; otherwise the first longest run of two or
/// more zero groups is elided with a double colon.
pub open spec fn spec_ipv6(gs: Seq<u16>) -> Seq<char>
    recommends
        gs.len() == 8,
{
    if spec_ipv6_is_mapped(gs) {
        "::ffff:"@ + spec_ipv4(
            (gs[6] / 256) as u8,
            (gs[6] % 256) as u8,
            (gs[7] / 256) as u8,
            (gs[7] % 256) as u8,
        )
    } else {
        let best = spec_best_zero_run(gs, 0);
        if best.1 < 2 {
            spec_groups_colon(gs)
        } else {
            spec_groups_colon(gs.subrange(0, best.0)) + "::"@ + spec_groups_colon(
                gs.subrange(best.0 + best.1, gs.len() as int),
            )
        }
    }
}

fn zero_run_at(gs: &Vec<u16>, i: usize) -> (r: usize)
    requires
        i <= gs@.len(),
    ensures
        r as nat == spec_zero_run_at(gs@, i as int),
        i + r <= gs@.len(),
    decreases gs@.len() - i,
{
    if i == gs.len() {
        0
    } else if gs[i] != 0 {
        0
    } else {
        1 + zero_run_at(gs, i + 1)
    }
}

fn best_zero_run(gs: &Vec<u16>, i: usize) -> (r: (usize, usize))
    requires
        i <= gs@.len(),
    ensures
        (r.0 as int, r.1 as nat) == spec_best_zero_run(gs@, i as int),
    decreases gs@.len() - i,
{
    if i == gs.len() {
        (i, 0)
    } else {
        let cur = zero_run_at(gs, i);
        let best = best_zero_run(gs, i + 1);
        if cur >= best.1 {
            (i, cur)
        } else {
            best
        }
    }
}

fn groups_colon(gs: &Vec<u16>, from: usize, to: usize) -> (s: String)
    requires
        from <= to <= gs@.len(),
    ensures
        s@ == spec_groups_colon(gs@.subrange(from as int, to as int)),
    decreases to - from,
{
    proof {
        reveal_strlit(":");
    }
    if from == to {
        String::new()
    } else if from + 1 == to {
        let s = hexnum_u16(gs[from]);
        proof {
            assert(gs@.subrange(from as int, to as int) =~= seq![gs@[from as int]]);
        }
        s
    } else {
        let mut s = hexnum_u16(gs[from]);
        s.append(":");
        let rest = groups_colon(gs, from + 1, to);
        s.append(rest.as_str());
        proof {
            let sub = gs@.subrange(from as int, to as int);
            assert(sub[0] == gs@[from as int]);
            assert(sub.drop_first() =~= gs@.subrange(from as int + 1, to as int));
        }
        s
    }
}

/// Renders an IPv6 address from its eight groups.
pub fn ipv6_string(gs: &Vec<u16>) -> (s: String)
    requires
        gs@.len() == 8,
    ensures
        s@ == spec_ipv6(gs@),
{
    if gs[0] == 0 && gs[1] == 0 && gs[2] == 0 && gs[3] == 0 && gs[4] == 0 && gs[5] == 0xffff {
        let mut s = String::from_str("::ffff:");
        let q = ipv4_string(
            (gs[6] / 256) as u8,
            (gs[6] % 256) as u8,
            (gs[7] / 256) as u8,
            (gs[7] % 256) as u8,
        );
        s.append(q.as_str());
        s
    } else {
        let best = best_zero_run(gs, 0);
        if best.1 < 2 {
            proof {
                assert(gs@.subrange(0, 8) =~= gs@);
            }
            groups_colon(gs, 0, 8)
        } else {
            proof {
                assert(spec_best_zero_run(gs@, 0).1 == spec_zero_run_at(
                    gs@,
                    spec_best_zero_run(gs@, 0).0,
                ) && 0 <= spec_best_zero_run(gs@, 0).0
                    && spec_best_zero_run(gs@, 0).0 + spec_best_zero_run(gs@, 0).1
                    <= gs@.len()) by {
                    lemma_best_zero_run_bounds(gs@, 0);
                }
            }
            let mut s = groups_colon(gs, 0, best.0);
            s.append("::");
            let tail = groups_colon(gs, best.0 + best.1, 8);
            s.append(tail.as_str());
            s
        }
    }
}

proof fn lemma_best_zero_run_bounds(gs: Seq<u16>, i: int)
    requires
        0 <= i <= gs.len(),
    ensures
        ({
            let best = spec_best_zero_run(gs, i);
            &&& i <= best.0 <= gs.len()
            &&& best.1 == spec_zero_run_at(gs, best.0)
            &&& best.0 + best.1 <= gs.len()
        }),
    decreases gs.len() - i,
{
    lemma_zero_run_bounds(gs, i);
    if i < gs.len() {
        lemma_best_zero_run_bounds(gs, i + 1);
        lemma_zero_run_bounds(gs, spec_best_zero_run(gs, i).0);
    }
}

proof fn lemma_zero_run_bounds(gs: Seq<u16>, i: int)
    requires
        0 <= i <= gs.len(),
    ensures
        i + spec_zero_run_at(gs, i) <= gs.len(),
    decreases gs.len() - i,
{
    if i < gs.len() && gs[i] == 0 {
        lemma_zero_run_bounds(gs, i + 1);
    }
}

/// Zero-padded two-digit decimal rendering.
pub open spec fn spec_pad2(n: nat) -> Seq<char> {
    if n < 10 {
        seq!['0'] + spec_dec(n)
    } else {
        spec_dec(n)
    }
}

/// Zero-padded three-digit decimal rendering.
pub open spec fn spec_pad3(n: nat) -> Seq<char> {
    if n < 10 {
        seq!['0', '0'] + spec_dec(n)
    } else if n < 100 {
        seq!['0'] + spec_dec(n)
    } else {
        spec_dec(n)
    }
}

fn pad2(n: u64) -> (s: String)
    ensures
        s@ == spec_pad2(n as nat),
{
    proof {
        reveal_strlit("0");
    }
    if n < 10 {
        let mut s = String::from_str("0");
        let d = dec_u64(n);
        s.append(d.as_str());
        s
    } else {
        dec_u64(n)
    }
}

fn pad3(n: u64) -> (s: String)
    ensures
        s@ == spec_pad3(n as nat),
{
    proof {
        reveal_strlit("0");
        reveal_strlit("00");
        assert("00"@ =~= seq!['0', '0']) by {
            reveal_strlit("0");
            reveal_strlit("00");
        }
    }
    if n < 10 {
        let mut s = String::from_str("00");
        let d = dec_u64(n);
        s.append(d.as_str());
        s
    } else if n < 100 {
        let mut s = String::from_str("0");
        let d = dec_u64(n);
        s.append(d.as_str());
        s
    } else {
        dec_u64(n)
    }
}

/// The time of day a capture timestamp denotes, as `HH:MM:SS.mmm` in
/// universal time; the fraction is the microsecond field truncated to
/// milliseconds.
pub open spec fn spec_timestamp(sec: u32, usec: u32) -> Seq<char> {
    spec_pad2((sec as nat / 3600) % 24) + seq![':'] + spec_pad2((sec as nat / 60) % 60)
        + seq![':'] + spec_pad2(sec as nat % 60) + seq!['.'] + spec_pad3(usec as nat / 1000)
}

/// Renders a capture timestamp as a time of day.
pub fn timestamp_string(sec: u32, usec: u32) -> (s: String)
    ensures
        s@ == spec_timestamp(sec, usec),
{
    proof {
        reveal_strlit(":");
        reveal_strlit(".");
    }
    let mut s = pad2((sec as u64 / 3600) % 24);
    s.append(":");
    let m = pad2((sec as u64 / 60) % 60);
    s.append(m.as_str());
    s.append(":");
    let sc = pad2(sec as u64 % 60);
    s.append(sc.as_str());
    s.append(".");
    let ms = pad3(usec as u64 / 1000);
    s.append(ms.as_str());
    proof {
        assert(s@ =~= spec_timestamp(sec, usec));
    }
    s
}

} // verus!
