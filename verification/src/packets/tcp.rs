//! The TCP transport layer: the twenty-byte header, the options region
//! delimited by the data offset, and the payload. The summary line renders
//! endpoints, flags, sequence numbers, window, payload length and the
//! values of a timestamp option when one is present.

use vstd::prelude::*;
use vstd::string::*;
use crate::render::{spec_dec, dec_u64, dec_usize};
use crate::wire::{be16, be32, read_be16, read_be32, copy_range};

verus! {

/// A decoded TCP header with its raw options region and payload.
pub struct TcpSegment {
    pub source: u16,
    pub destination: u16,
    pub sequence: u32,
    pub acknowledgement: u32,
    pub data_offset: u8,
    pub flags: u8,
    pub window: u16,
    pub options: Vec<u8>,
    pub payload: Vec<u8>,
}

/// How many bytes of options the data offset declares: four bytes per
/// word beyond the five-word fixed header.
pub open spec fn spec_tcp_optlen(data: Seq<u8>) -> nat
    recommends
        data.len() >= 20,
{
    let words = (data[12] / 16) as nat;
    if words > 5 {
        (words * 4 - 20) as nat
    } else {
        0
    }
}

/// The raw options region: the declared options bytes after the fixed
/// header, clamped to the buffer.
pub open spec fn spec_tcp_options(data: Seq<u8>) -> Seq<u8>
    recommends
        data.len() >= 20,
{
    let optlen = spec_tcp_optlen(data);
    if data.len() <= 20 {
        Seq::empty()
    } else {
        let end: nat = if 20 + optlen <= data.len() {
            20 + optlen
        } else {
            data.len()
        };
        data.subrange(20, end as int)
    }
}

/// The payload: everything after the fixed header and the declared
/// options; a buffer that ends inside the declared options yields an
/// empty payload.
pub open spec fn spec_tcp_payload(data: Seq<u8>) -> Seq<u8>
    recommends
        data.len() >= 20,
{
    let start = 20 + spec_tcp_optlen(data);
    if data.len() <= start {
        Seq::empty()
    } else {
        data.skip(start as int)
    }
}

/// The letter a set flag bit contributes, or nothing.
pub open spec fn spec_flag_char(f: u8, bit: u8, c: char) -> Seq<char> {
    if f & bit != 0 {
        seq![c]
    } else {
        Seq::empty()
    }
}

/// The flag letters, one per set bit, in the fixed order
/// FIN, SYN, RST, PSH, ACK, URG, ECE, CWR.
pub open spec fn spec_tcp_flags(f: u8) -> Seq<char> {
    spec_flag_char(f, 0x01, 'F') + spec_flag_char(f, 0x02, 'S') + spec_flag_char(f, 0x04, 'R')
        + spec_flag_char(f, 0x08, 'P') + spec_flag_char(f, 0x10, 'A') + spec_flag_char(
        f,
        0x20,
        'U',
    ) + spec_flag_char(f, 0x40, 'E') + spec_flag_char(f, 0x80, 'C')
}

/// The walk over the options region that yields the two values of the
/// last well-formed timestamp option, starting from a given pair. Each
/// option is a kind byte, a length byte for kinds above one, and
/// `length - 2` declared data bytes; the walk advances by the declared
/// size clamped to the region, and a timestamp option (kind eight) with
/// at least eight available data bytes updates the pair.
pub open spec fn spec_ts_walk(s: Seq<u8>, acc: (u32, u32)) -> (u32, u32)
    decreases s.len(),
{
    if s.len() == 0 {
        acc
    } else if s[0] == 0 || s[0] == 1 {
        spec_ts_walk(s.drop_first(), acc)
    } else {
        let dlen: nat = if s.len() >= 2 && s[1] >= 2 {
            (s[1] - 2) as nat
        } else {
            0
        };
        let adv: nat = if 2 + dlen <= s.len() {
            2 + dlen
        } else {
            s.len()
        };
        let avail: nat = if s.len() >= 2 {
            (s.len() - 2) as nat
        } else {
            0
        };
        let actual: nat = if dlen <= avail {
            dlen
        } else {
            avail
        };
        let acc2 = if s[0] == 8 && actual >= 8 {
            (be32(s, 2), be32(s, 6))
        } else {
            acc
        };
        spec_ts_walk(s.skip(adv as int), acc2)
    }
}

/// The timestamp values reported for an options region: the last
/// well-formed timestamp option's values, or zeros.
pub open spec fn spec_tcp_timestamps(options: Seq<u8>) -> (u32, u32) {
    spec_ts_walk(options, (0u32, 0u32))
}

/// The TCP summary line.
pub open spec fn spec_tcp_info(
    src_ip: Seq<char>,
    dst_ip: Seq<char>,
    seg_source: u16,
    seg_destination: u16,
    flags: u8,
    sequence: u32,
    acknowledgement: u32,
    window: u16,
    payload_len: nat,
    options: Seq<u8>,
) -> Seq<char> {
    src_ip + seq![':'] + spec_dec(seg_source as nat) + " -> "@ + dst_ip + seq![':'] + spec_dec(
        seg_destination as nat,
    ) + " ["@ + spec_tcp_flags(flags) + "] Seq="@ + spec_dec(sequence as nat) + " Ack="@
        + spec_dec(acknowledgement as nat) + " Win="@ + spec_dec(window as nat) + " Len="@
        + spec_dec(payload_len) + " TSval="@ + spec_dec(spec_tcp_timestamps(options).0 as nat)
        + " TSecr="@ + spec_dec(spec_tcp_timestamps(options).1 as nat)
}

/// Decoder of the TCP transport layer.
pub struct TcpProcessor;

impl TcpProcessor {
    /// Creates the decoder.
    pub fn new() -> (p: TcpProcessor) {
        TcpProcessor
    }

    /// Decodes a TCP header: succeeds exactly on twenty or more bytes,
    /// and then yields the ports, the sequence numbers, the flags, the
    /// raw options region and the payload.
    pub fn process(&self, data: &[u8]) -> (r: Option<TcpSegment>)
        ensures
            r is Some <==> data@.len() >= 20,
            r matches Some(s) ==> {
                &&& s.source == be16(data@, 0)
                &&& s.destination == be16(data@, 2)
                &&& s.sequence == be32(data@, 4)
                &&& s.acknowledgement == be32(data@, 8)
                &&& s.data_offset == data@[12] / 16
                &&& s.flags == data@[13]
                &&& s.window == be16(data@, 14)
                &&& s.options@ == spec_tcp_options(data@)
                &&& s.payload@ == spec_tcp_payload(data@)
            },
    {
        if data.len() < 20 {
            return None;
        }
        let source = read_be16(data, 0);
        let destination = read_be16(data, 2);
        let sequence = read_be32(data, 4);
        let acknowledgement = read_be32(data, 8);
        let data_offset = data[12] / 16;
        let flags = data[13];
        let window = read_be16(data, 14);
        let optlen: usize = if data_offset > 5 {
            data_offset as usize * 4 - 20
        } else {
            0
        };
        let options = if data.len() <= 20 {
            Vec::new()
        } else {
            let end = if 20 + optlen <= data.len() {
                20 + optlen
            } else {
                data.len()
            };
            copy_range(data, 20, end)
        };
        let start = 20 + optlen;
        let payload = if data.len() <= start {
            Vec::new()
        } else {
            copy_range(data, start, data.len())
        };
        proof {
            if data@.len() > start {
                assert(data@.subrange(start as int, data@.len() as int) =~= data@.skip(
                    start as int,
                ));
            }
        }
        Some(
            TcpSegment {
                source,
                destination,
                sequence,
                acknowledgement,
                data_offset,
                flags,
                window,
                options,
                payload,
            },
        )
    }

    /// Renders the flag letters of a flag byte.
    #[verifier::rlimit(50)]
    pub fn get_tcp_flags(flags: u8) -> (s: String)
        ensures
            s@ == spec_tcp_flags(flags),
    {
        proof {
            reveal_strlit("F");
            reveal_strlit("S");
            reveal_strlit("R");
            reveal_strlit("P");
            reveal_strlit("A");
            reveal_strlit("U");
            reveal_strlit("E");
            reveal_strlit("C");
        }
        let mut s = String::new();
        if flags & 0x01 != 0 {
            s.append("F");
        }
        proof {
            assert(s@ =~= spec_flag_char(flags, 0x01, 'F'));
        }
        if flags & 0x02 != 0 {
            s.append("S");
        }
        proof {
            assert(s@ =~= spec_flag_char(flags, 0x01, 'F') + spec_flag_char(flags, 0x02, 'S'));
        }
        if flags & 0x04 != 0 {
            s.append("R");
        }
        proof {
            assert(s@ =~= spec_flag_char(flags, 0x01, 'F') + spec_flag_char(flags, 0x02, 'S')
                + spec_flag_char(flags, 0x04, 'R'));
        }
        if flags & 0x08 != 0 {
            s.append("P");
        }
        proof {
            assert(s@ =~= spec_flag_char(flags, 0x01, 'F') + spec_flag_char(flags, 0x02, 'S')
                + spec_flag_char(flags, 0x04, 'R') + spec_flag_char(flags, 0x08, 'P'));
        }
        if flags & 0x10 != 0 {
            s.append("A");
        }
        proof {
            assert(s@ =~= spec_flag_char(flags, 0x01, 'F') + spec_flag_char(flags, 0x02, 'S')
                + spec_flag_char(flags, 0x04, 'R') + spec_flag_char(flags, 0x08, 'P')
                + spec_flag_char(flags, 0x10, 'A'));
        }
        if flags & 0x20 != 0 {
            s.append("U");
        }
        proof {
            assert(s@ =~= spec_flag_char(flags, 0x01, 'F') + spec_flag_char(flags, 0x02, 'S')
                + spec_flag_char(flags, 0x04, 'R') + spec_flag_char(flags, 0x08, 'P')
                + spec_flag_char(flags, 0x10, 'A') + spec_flag_char(flags, 0x20, 'U'));
        }
        if flags & 0x40 != 0 {
            s.append("E");
        }
        proof {
            assert(s@ =~= spec_flag_char(flags, 0x01, 'F') + spec_flag_char(flags, 0x02, 'S')
                + spec_flag_char(flags, 0x04, 'R') + spec_flag_char(flags, 0x08, 'P')
                + spec_flag_char(flags, 0x10, 'A') + spec_flag_char(flags, 0x20, 'U')
                + spec_flag_char(flags, 0x40, 'E'));
        }
        if flags & 0x80 != 0 {
            s.append("C");
        }
        proof {
            assert(s@ =~= spec_flag_char(flags, 0x01, 'F') + spec_flag_char(flags, 0x02, 'S')
                + spec_flag_char(flags, 0x04, 'R') + spec_flag_char(flags, 0x08, 'P')
                + spec_flag_char(flags, 0x10, 'A') + spec_flag_char(flags, 0x20, 'U')
                + spec_flag_char(flags, 0x40, 'E') + spec_flag_char(flags, 0x80, 'C'));
        }
        s
    }

    /// Extracts the last well-formed timestamp option's values from the
    /// raw options region, or zeros.
    pub fn tcp_timestamps(options: &Vec<u8>) -> (r: (u32, u32))
        ensures
            r == spec_tcp_timestamps(options@),
    {
        let n = options.len();
        let mut i: usize = 0;
        let mut acc: (u32, u32) = (0, 0);
        proof {
            assert(options@.skip(0) =~= options@);
        }
        while i < n
            invariant
                i <= n,
                n == options@.len(),
                spec_ts_walk(options@, (0u32, 0u32)) == spec_ts_walk(
                    options@.skip(i as int),
                    acc,
                ),
            decreases n - i,
        {
            let ghost s = options@.skip(i as int);
            let kind = options[i];
            if kind == 0 || kind == 1 {
                proof {
                    assert(s.drop_first() =~= options@.skip(i as int + 1));
                }
                i = i + 1;
            } else {
                let dlen: usize = if i + 1 < n && options[i + 1] >= 2 {
                    options[i + 1] as usize - 2
                } else {
                    0
                };
                let adv: usize = if 2 + dlen <= n - i {
                    2 + dlen
                } else {
                    n - i
                };
                let avail: usize = if n - i >= 2 {
                    n - i - 2
                } else {
                    0
                };
                let actual: usize = if dlen <= avail {
                    dlen
                } else {
                    avail
                };
                proof {
                    assert(s.len() == n - i);
                    if i + 1 < n {
                        assert(s[1] == options@[i as int + 1]);
                    }
                }
                if kind == 8 && actual >= 8 {
                    let v0 = read_be32(options.as_slice(), i + 2);
                    let v1 = read_be32(options.as_slice(), i + 6);
                    proof {
                        assert(be32(s, 2) == be32(options@, i as int + 2));
                        assert(be32(s, 6) == be32(options@, i as int + 6));
                    }
                    acc = (v0, v1);
                }
                proof {
                    assert(s.skip(adv as int) =~= options@.skip(i as int + adv as int));
                }
                i = i + adv;
            }
        }
        proof {
            assert(options@.skip(n as int) =~= Seq::<u8>::empty());
        }
        acc
    }

    /// Renders the TCP summary line for a segment between two rendered
    /// network addresses.
    pub fn format_tcp_info(src_ip: &str, dst_ip: &str, segment: &TcpSegment) -> (s: String)
        ensures
            s@ == spec_tcp_info(
                src_ip@,
                dst_ip@,
                segment.source,
                segment.destination,
                segment.flags,
                segment.sequence,
                segment.acknowledgement,
                segment.window,
                segment.payload@.len(),
                segment.options@,
            ),
    {
        proof {
            reveal_strlit(":");
        }
        let mut s = String::from_str(src_ip);
        s.append(":");
        let sp = dec_u64(segment.source as u64);
        s.append(sp.as_str());
        s.append(" -> ");
        s.append(dst_ip);
        s.append(":");
        let dp = dec_u64(segment.destination as u64);
        s.append(dp.as_str());
        s.append(" [");
        let fl = Self::get_tcp_flags(segment.flags);
        s.append(fl.as_str());
        s.append("] Seq=");
        let sq = dec_u64(segment.sequence as u64);
        s.append(sq.as_str());
        s.append(" Ack=");
        let ak = dec_u64(segment.acknowledgement as u64);
        s.append(ak.as_str());
        s.append(" Win=");
        let wn = dec_u64(segment.window as u64);
        s.append(wn.as_str());
        s.append(" Len=");
        let ln = dec_usize(segment.payload.len());
        s.append(ln.as_str());
        s.append(" TSval=");
        let ts = Self::tcp_timestamps(&segment.options);
        let tv = dec_u64(ts.0 as u64);
        s.append(tv.as_str());
        s.append(" TSecr=");
        let te = dec_u64(ts.1 as u64);
        s.append(te.as_str());
        proof {
            assert(s@ =~= spec_tcp_info(
                src_ip@,
                dst_ip@,
                segment.source,
                segment.destination,
                segment.flags,
                segment.sequence,
                segment.acknowledgement,
                segment.window,
                segment.payload@.len(),
                segment.options@,
            ));
        }
        s
    }
}

} // verus!
