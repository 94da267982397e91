//! Reading and writing fixed-width integers at byte offsets, in both byte
//! orders, with spec-level mirrors used by the dissector and the trace codec.

use vstd::prelude::*;

verus! {

/// Big-endian sixteen-bit value at offset `i`.
pub open spec fn be16(s: Seq<u8>, i: int) -> u16
    recommends
        0 <= i,
        i + 2 <= s.len(),
{
    ((s[i] as nat) * 256 + (s[i + 1] as nat)) as u16
}

/// Big-endian thirty-two-bit value at offset `i`.
pub open spec fn be32(s: Seq<u8>, i: int) -> u32
    recommends
        0 <= i,
        i + 4 <= s.len(),
{
    ((s[i] as nat) * 0x1000000 + (s[i + 1] as nat) * 0x10000 + (s[i + 2] as nat) * 0x100 + (s[i
        + 3] as nat)) as u32
}

/// Little-endian sixteen-bit value at offset `i`.
pub open spec fn le16(s: Seq<u8>, i: int) -> u16
    recommends
        0 <= i,
        i + 2 <= s.len(),
{
    ((s[i] as nat) + (s[i + 1] as nat) * 256) as u16
}

/// Little-endian thirty-two-bit value at offset `i`.
pub open spec fn le32(s: Seq<u8>, i: int) -> u32
    recommends
        0 <= i,
        i + 4 <= s.len(),
{
    ((s[i] as nat) + (s[i + 1] as nat) * 0x100 + (s[i + 2] as nat) * 0x10000 + (s[i
        + 3] as nat) * 0x1000000) as u32
}

/// The four bytes of a thirty-two-bit value, least significant first.
pub open spec fn le32_bytes(n: u32) -> Seq<u8> {
    seq![
        (n as nat % 256) as u8,
        (n as nat / 256 % 256) as u8,
        (n as nat / 0x10000 % 256) as u8,
        (n as nat / 0x1000000) as u8,
    ]
}

/// The two bytes of a sixteen-bit value, least significant first.
pub open spec fn le16_bytes(n: u16) -> Seq<u8> {
    seq![(n as nat % 256) as u8, (n as nat / 256) as u8]
}

/// Reading back the four little-endian bytes of a value yields the value.
pub proof fn lemma_le32_roundtrip(n: u32)
    ensures
        le32(le32_bytes(n), 0) == n,
{
    assert(n as nat == n as nat % 256 + 256 * (n as nat / 256));
    assert(n as nat / 256 == n as nat / 256 % 256 + 256 * (n as nat / 256 / 256));
    assert(n as nat / 256 / 256 == n as nat / 0x10000) by (nonlinear_arith);
    assert(n as nat / 0x10000 == n as nat / 0x10000 % 256 + 256 * (n as nat / 0x10000 / 256));
    assert(n as nat / 0x10000 / 256 == n as nat / 0x1000000) by (nonlinear_arith);
    assert(n as nat / 0x1000000 < 256);
}

/// Reads a big-endian sixteen-bit value.
pub fn read_be16(s: &[u8], i: usize) -> (r: u16)
    requires
        i + 2 <= s@.len(),
    ensures
        r == be16(s@, i as int),
{
    (s[i] as u16) * 256 + (s[i + 1] as u16)
}

/// Reads a big-endian thirty-two-bit value.
pub fn read_be32(s: &[u8], i: usize) -> (r: u32)
    requires
        i + 4 <= s@.len(),
    ensures
        r == be32(s@, i as int),
{
    (s[i] as u32) * 0x1000000 + (s[i + 1] as u32) * 0x10000 + (s[i + 2] as u32) * 0x100 + (s[i
        + 3] as u32)
}

/// Reads a little-endian sixteen-bit value.
pub fn read_le16(s: &[u8], i: usize) -> (r: u16)
    requires
        i + 2 <= s@.len(),
    ensures
        r == le16(s@, i as int),
{
    (s[i] as u16) + (s[i + 1] as u16) * 256
}

/// Reads a little-endian thirty-two-bit value.
pub fn read_le32(s: &[u8], i: usize) -> (r: u32)
    requires
        i + 4 <= s@.len(),
    ensures
        r == le32(s@, i as int),
{
    (s[i] as u32) + (s[i + 1] as u32) * 0x100 + (s[i + 2] as u32) * 0x10000 + (s[i
        + 3] as u32) * 0x1000000
}

/// Copies a byte range out of a slice.
pub fn copy_range(s: &[u8], from: usize, to: usize) -> (r: Vec<u8>)
    requires
        from <= to <= s@.len(),
    ensures
        r@ == s@.subrange(from as int, to as int),
{
    let mut r: Vec<u8> = Vec::new();
    let mut i: usize = from;
    while i < to
        invariant
            from <= i <= to <= s@.len(),
            r@ == s@.subrange(from as int, i as int),
        decreases to - i,
    {
        r.push(s[i]);
        proof {
            assert(s@.subrange(from as int, i as int) + seq![s@[i as int]] =~= s@.subrange(
                from as int,
                i as int + 1,
            ));
        }
        i = i + 1;
    }
    r
}

/// Appends a thirty-two-bit value to the buffer, least significant byte
/// first.
pub fn push_le32(buf: &mut Vec<u8>, n: u32)
    ensures
        final(buf)@ == old(buf)@ + le32_bytes(n),
{
    buf.push((n % 256) as u8);
    buf.push((n / 256 % 256) as u8);
    buf.push((n / 0x10000 % 256) as u8);
    buf.push((n / 0x1000000) as u8);
    proof {
        assert(buf@ =~= old(buf)@ + le32_bytes(n));
    }
}

/// Appends a sixteen-bit value to the buffer, least significant byte first.
pub fn push_le16(buf: &mut Vec<u8>, n: u16)
    ensures
        final(buf)@ == old(buf)@ + le16_bytes(n),
{
    buf.push((n % 256) as u8);
    buf.push((n / 256) as u8);
    proof {
        assert(buf@ =~= old(buf)@ + le16_bytes(n));
    }
}

} // verus!
