//! The binary trace-file codec. A trace is a fixed 24-byte header followed
//! by records, each a 16-byte header and the captured payload; every
//! multi-byte field is little-endian. The writer produces bytes into a
//! buffer that its owner flushes; the reader consumes a byte buffer
//! sequentially and reports truncation as an error, never as a silent stop.

use vstd::prelude::*;
use crate::wire::{le16, le32, le16_bytes, le32_bytes, lemma_le32_roundtrip, push_le16, push_le32,
    read_le16, read_le32};

verus! {

/// One captured frame: the stored bytes, the capture timestamp, and the
/// length the frame had on the wire (which exceeds the stored length when
/// the frame was truncated to the snapshot length).
pub struct RawFrame {
    pub data: Vec<u8>,
    pub ts_sec: u32,
    pub ts_usec: u32,
    pub orig_len: u32,
}

/// The mathematical model of a frame.
pub ghost struct FrameModel {
    pub data: Seq<u8>,
    pub ts_sec: u32,
    pub ts_usec: u32,
    pub orig_len: u32,
}

impl View for RawFrame {
    type V = FrameModel;

    open spec fn view(&self) -> FrameModel {
        FrameModel {
            data: self.data@,
            ts_sec: self.ts_sec,
            ts_usec: self.ts_usec,
            orig_len: self.orig_len,
        }
    }
}

impl DeepView for RawFrame {
    type V = FrameModel;

    open spec fn deep_view(&self) -> FrameModel {
        self.view()
    }
}

/// Errors of the trace codec.
#[derive(Debug, Clone, PartialEq, Eq, Structural)]
pub enum TraceError {
    /// The buffer ends before the 24-byte file header is complete.
    TruncatedHeader,
    /// The file header does not carry the expected magic number.
    BadMagic,
    /// The buffer ends before a record's declared payload is complete.
    TruncatedRecord,
}

/// The file-header magic number, preserved for compatibility with common
/// trace tooling.
pub open spec fn spec_magic() -> Seq<u8> {
    seq![0xd4u8, 0xc3u8, 0xb2u8, 0xa1u8]
}

/// The 24-byte file header: magic, version 2.4, timezone offset 0,
/// timestamp accuracy 0, snapshot length, link-layer type.
pub open spec fn spec_header_bytes(snaplen: u32, link_type: u32) -> Seq<u8> {
    spec_magic() + le16_bytes(2) + le16_bytes(4) + le32_bytes(0) + le32_bytes(0) + le32_bytes(
        snaplen,
    ) + le32_bytes(link_type)
}

/// The encoding of one record: timestamp seconds, timestamp microseconds,
/// captured length, original length, then the captured bytes.
pub open spec fn spec_record_bytes(f: FrameModel) -> Seq<u8> {
    le32_bytes(f.ts_sec) + le32_bytes(f.ts_usec) + le32_bytes(f.data.len() as u32) + le32_bytes(
        f.orig_len,
    ) + f.data
}

/// The concatenated encoding of a sequence of records.
pub open spec fn spec_records_bytes(frames: Seq<FrameModel>) -> Seq<u8>
    decreases frames.len(),
{
    if frames.len() == 0 {
        Seq::empty()
    } else {
        spec_record_bytes(frames[0]) + spec_records_bytes(frames.drop_first())
    }
}

/// Sequential decoding of the record region of a trace. An empty region is
/// a complete (empty) trace; a region shorter than a record header, or
/// shorter than a record's declared payload, fails to decode.
pub open spec fn spec_decode_records(bytes: Seq<u8>) -> Option<Seq<FrameModel>>
    decreases bytes.len(),
{
    if bytes.len() == 0 {
        Some(Seq::empty())
    } else if bytes.len() < 16 {
        None
    } else {
        let incl = le32(bytes, 8) as nat;
        if bytes.len() - 16 < incl {
            None
        } else {
            match spec_decode_records(bytes.skip(16 + incl as int)) {
                Some(rest) => Some(
                    seq![
                        FrameModel {
                            data: bytes.subrange(16, 16 + incl as int),
                            ts_sec: le32(bytes, 0),
                            ts_usec: le32(bytes, 4),
                            orig_len: le32(bytes, 12),
                        },
                    ] + rest,
                ),
                None => None,
            }
        }
    }
}

/// Writes a trace into an in-memory buffer: the header at construction,
/// then one record per frame. The owner drains the buffer to its sink
/// after each append, which keeps the file flushed eagerly.
pub struct PcapWriter {
    buf: Vec<u8>,
    snaplen: u32,
    link_type: u32,
}

impl PcapWriter {
    /// What the writer has produced and not yet handed out.
    pub closed spec fn pending(&self) -> Seq<u8> {
        self.buf@
    }

    /// The snapshot length the trace was created with.
    pub closed spec fn spec_snaplen(&self) -> u32 {
        self.snaplen
    }

    /// The link-layer type the trace was created with.
    pub closed spec fn spec_link_type(&self) -> u32 {
        self.link_type
    }

    /// Creates a writer whose buffer holds exactly the file header.
    pub fn new(snaplen: u32, link_type: u32) -> (w: PcapWriter)
        ensures
            w.pending() == spec_header_bytes(snaplen, link_type),
            w.spec_snaplen() == snaplen,
            w.spec_link_type() == link_type,
    {
        let mut buf: Vec<u8> = Vec::new();
        buf.push(0xd4);
        buf.push(0xc3);
        buf.push(0xb2);
        buf.push(0xa1);
        push_le16(&mut buf, 2);
        push_le16(&mut buf, 4);
        push_le32(&mut buf, 0);
        push_le32(&mut buf, 0);
        push_le32(&mut buf, snaplen);
        push_le32(&mut buf, link_type);
        proof {
            assert(buf@ =~= spec_header_bytes(snaplen, link_type));
        }
        PcapWriter { buf, snaplen, link_type }
    }

    /// Appends the encoding of one record to the buffer.
    pub fn write_packet(&mut self, frame: &RawFrame)
        requires
            frame.data@.len() <= 0xFFFF_FFFF,
        ensures
            final(self).pending() == old(self).pending() + spec_record_bytes(frame@),
            final(self).spec_snaplen() == old(self).spec_snaplen(),
            final(self).spec_link_type() == old(self).spec_link_type(),
    {
        push_le32(&mut self.buf, frame.ts_sec);
        push_le32(&mut self.buf, frame.ts_usec);
        push_le32(&mut self.buf, frame.data.len() as u32);
        push_le32(&mut self.buf, frame.orig_len);
        let mut i: usize = 0;
        let ghost mid = self.buf@;
        proof {
            assert(mid =~= old(self).buf@ + (le32_bytes(frame.ts_sec) + le32_bytes(frame.ts_usec)
                + le32_bytes(frame.data@.len() as u32) + le32_bytes(frame.orig_len)));
        }
        while i < frame.data.len()
            invariant
                i <= frame.data@.len(),
                self.buf@ == mid + frame.data@.subrange(0, i as int),
                self.snaplen == old(self).snaplen,
                self.link_type == old(self).link_type,
            decreases frame.data@.len() - i,
        {
            self.buf.push(frame.data[i]);
            proof {
                assert(mid + frame.data@.subrange(0, i as int) + seq![frame.data@[i as int]]
                    =~= mid + frame.data@.subrange(0, i as int + 1));
            }
            i = i + 1;
        }
        proof {
            assert(frame.data@.subrange(0, frame.data@.len() as int) =~= frame.data@);
            assert(self.buf@ =~= mid + frame.data@);
            assert(self.buf@ =~= old(self).buf@ + spec_record_bytes(frame@));
        }
    }

    /// Hands out everything produced so far and leaves the buffer empty.
    pub fn take_bytes(&mut self) -> (out: Vec<u8>)
        ensures
            out@ == old(self).pending(),
            final(self).pending() == Seq::<u8>::empty(),
            final(self).spec_snaplen() == old(self).spec_snaplen(),
            final(self).spec_link_type() == old(self).spec_link_type(),
    {
        let mut out: Vec<u8> = Vec::new();
        core::mem::swap(&mut out, &mut self.buf);
        out
    }
}

/// Reads a trace from a byte buffer: the header once at construction, then
/// records in file order until the buffer is exhausted.
pub struct PcapReader {
    data: Vec<u8>,
    pos: usize,
    snaplen: u32,
    link_type: u32,
    version_major: u16,
    version_minor: u16,
}

impl PcapReader {
    /// The bytes not yet consumed.
    pub closed spec fn remaining(&self) -> Seq<u8> {
        self.data@.skip(self.pos as int)
    }

    /// The reader's position is inside its buffer.
    pub closed spec fn wf(&self) -> bool {
        self.pos <= self.data@.len()
    }

    /// The snapshot length the trace declares.
    pub closed spec fn spec_snaplen(&self) -> u32 {
        self.snaplen
    }

    /// The link-layer type the trace declares.
    pub closed spec fn spec_link_type(&self) -> u32 {
        self.link_type
    }

    /// Opens a trace. Fails on a buffer shorter than the header and on a
    /// wrong magic number; on success the reader stands at the first
    /// record.
    pub fn new(data: Vec<u8>) -> (r: Result<PcapReader, TraceError>)
        ensures
            match r {
                Ok(reader) => {
                    &&& data@.len() >= 24
                    &&& data@.subrange(0, 4) == spec_magic()
                    &&& reader.wf()
                    &&& reader.remaining() == data@.skip(24)
                    &&& reader.spec_snaplen() == le32(data@, 16)
                    &&& reader.spec_link_type() == le32(data@, 20)
                },
                Err(TraceError::TruncatedHeader) => data@.len() < 24,
                Err(TraceError::BadMagic) => data@.len() >= 24 && data@.subrange(0, 4)
                    != spec_magic(),
                Err(TraceError::TruncatedRecord) => false,
            },
    {
        if data.len() < 24 {
            return Err(TraceError::TruncatedHeader);
        }
        if data[0] != 0xd4 || data[1] != 0xc3 || data[2] != 0xb2 || data[3] != 0xa1 {
            proof {
                assert(data@.subrange(0, 4) != spec_magic()) by {
                    if data@.subrange(0, 4) == spec_magic() {
                        assert(data@.subrange(0, 4)[0] == 0xd4u8);
                        assert(data@.subrange(0, 4)[1] == 0xc3u8);
                        assert(data@.subrange(0, 4)[2] == 0xb2u8);
                        assert(data@.subrange(0, 4)[3] == 0xa1u8);
                    }
                }
            }
            return Err(TraceError::BadMagic);
        }
        let version_major = read_le16(data.as_slice(), 4);
        let version_minor = read_le16(data.as_slice(), 6);
        let snaplen = read_le32(data.as_slice(), 16);
        let link_type = read_le32(data.as_slice(), 20);
        proof {
            assert(data@.subrange(0, 4) =~= spec_magic());
        }
        Ok(PcapReader { data, pos: 24, snaplen, link_type, version_major, version_minor })
    }

    /// Reads the next record. A fully consumed buffer yields `None`; a
    /// buffer that ends inside a record header or inside a declared
    /// payload is a decode error.
    pub fn next_record(&mut self) -> (r: Result<Option<RawFrame>, TraceError>)
        requires
            old(self).wf(),
        ensures
            final(self).wf(),
            final(self).spec_snaplen() == old(self).spec_snaplen(),
            final(self).spec_link_type() == old(self).spec_link_type(),
            match r {
                Ok(None) => old(self).remaining().len() == 0 && final(self).remaining()
                    == old(self).remaining(),
                Ok(Some(frame)) => {
                    let rem = old(self).remaining();
                    &&& rem.len() >= 16
                    &&& rem.len() - 16 >= le32(rem, 8) as nat
                    &&& frame@ == FrameModel {
                        data: rem.subrange(16, 16 + le32(rem, 8) as int),
                        ts_sec: le32(rem, 0),
                        ts_usec: le32(rem, 4),
                        orig_len: le32(rem, 12),
                    }
                    &&& final(self).remaining() == rem.skip(16 + le32(rem, 8) as int)
                },
                Err(e) => {
                    let rem = old(self).remaining();
                    &&& e == TraceError::TruncatedRecord
                    &&& (0 < rem.len() < 16 || (rem.len() >= 16 && rem.len() - 16 < le32(rem, 8)
                        as nat))
                    &&& final(self).remaining() == rem
                },
            },
    {
        let avail = self.data.len() - self.pos;
        if avail == 0 {
            return Ok(None);
        }
        if avail < 16 {
            return Err(TraceError::TruncatedRecord);
        }
        let ghost rem = self.remaining();
        let ts_sec = read_le32(self.data.as_slice(), self.pos);
        let ts_usec = read_le32(self.data.as_slice(), self.pos + 4);
        let incl = read_le32(self.data.as_slice(), self.pos + 8);
        let orig_len = read_le32(self.data.as_slice(), self.pos + 12);
        proof {
            assert(le32(self.data@, self.pos as int) == le32(rem, 0));
            assert(le32(self.data@, self.pos as int + 4) == le32(rem, 4));
            assert(le32(self.data@, self.pos as int + 8) == le32(rem, 8));
            assert(le32(self.data@, self.pos as int + 12) == le32(rem, 12));
        }
        if avail - 16 < incl as usize {
            return Err(TraceError::TruncatedRecord);
        }
        let start = self.pos + 16;
        let count = incl as usize;
        assert(start + count <= self.data@.len());
        let mut payload: Vec<u8> = Vec::new();
        let mut i: usize = 0;
        while i < count
            invariant
                start + count <= self.data@.len(),
                self.data@.len() <= usize::MAX,
                i <= count,
                payload@ == self.data@.subrange(start as int, start as int + i as int),
            decreases count - i,
        {
            assert(start + i < self.data@.len());
            payload.push(self.data[start + i]);
            proof {
                assert(self.data@.subrange(start as int, start as int + i as int) + seq![
                    self.data@[start as int + i as int],
                ] =~= self.data@.subrange(start as int, start as int + i as int + 1));
            }
            i = i + 1;
        }
        self.pos = start + incl as usize;
        proof {
            assert(payload@ =~= rem.subrange(16, 16 + le32(rem, 8) as int));
            assert(self.data@.skip(self.pos as int) =~= rem.skip(16 + le32(rem, 8) as int));
        }
        Ok(Some(RawFrame { data: payload, ts_sec, ts_usec, orig_len }))
    }

    /// Reads every remaining record. Succeeds exactly when the remaining
    /// bytes decode as a record sequence, and then returns those records.
    pub fn read_all(&mut self) -> (r: Result<Vec<RawFrame>, TraceError>)
        requires
            old(self).wf(),
        ensures
            final(self).wf(),
            r is Ok <==> spec_decode_records(old(self).remaining()) is Some,
            match r {
                Ok(frames) => {
                    &&& Some(frames.deep_view()) == spec_decode_records(old(self).remaining())
                    &&& final(self).remaining().len() == 0
                },
                Err(e) => e == TraceError::TruncatedRecord,
            },
    {
        let mut frames: Vec<RawFrame> = Vec::new();
        loop
            invariant
                self.wf(),
                spec_decode_records(old(self).remaining()) == match spec_decode_records(
                    self.remaining(),
                ) {
                    Some(rest) => Some(frames.deep_view() + rest),
                    None => None::<Seq<FrameModel>>,
                },
            decreases self.remaining().len(),
        {
            match self.next_record() {
                Ok(None) => {
                    proof {
                        assert(frames.deep_view() + Seq::<FrameModel>::empty()
                            =~= frames.deep_view());
                    }
                    return Ok(frames);
                },
                Ok(Some(frame)) => {
                    let ghost pre = frames.deep_view();
                    let ghost head = frame@;
                    frames.push(frame);
                    proof {
                        assert(frames.deep_view() =~= pre + seq![head]);
                        if spec_decode_records(self.remaining()) is Some {
                            let rest = spec_decode_records(self.remaining())->Some_0;
                            assert(pre + (seq![head] + rest) =~= (pre + seq![head]) + rest);
                        }
                    }
                },
                Err(e) => {
                    return Err(e);
                },
            }
        }
    }
}

/// Round-trip law of the record codec: decoding the concatenated encoding
/// of any frame sequence yields that sequence again — identical payload
/// bytes, timestamps and original lengths.
#[verifier::rlimit(100)]
pub proof fn lemma_records_roundtrip(frames: Seq<FrameModel>)
    requires
        forall|i: int| 0 <= i < frames.len() ==> (#[trigger] frames[i]).data.len()
            <= 0xFFFF_FFFF,
    ensures
        spec_decode_records(spec_records_bytes(frames)) == Some(frames),
    decreases frames.len(),
{
    if frames.len() == 0 {
        assert(spec_records_bytes(frames).len() == 0);
        assert(spec_decode_records(spec_records_bytes(frames)) == Some(Seq::<FrameModel>::empty()));
        assert(frames =~= Seq::<FrameModel>::empty());
    } else {
        let f = frames[0];
        let head = spec_record_bytes(f);
        let tail = spec_records_bytes(frames.drop_first());
        let bytes = spec_records_bytes(frames);
        assert(bytes == head + tail);
        let cap = f.data.len() as u32;
        lemma_le32_roundtrip(f.ts_sec);
        lemma_le32_roundtrip(f.ts_usec);
        lemma_le32_roundtrip(cap);
        lemma_le32_roundtrip(f.orig_len);
        assert(head.len() == 16 + f.data.len());
        assert(bytes.subrange(0, 4) =~= le32_bytes(f.ts_sec));
        assert(bytes.subrange(4, 8) =~= le32_bytes(f.ts_usec));
        assert(bytes.subrange(8, 12) =~= le32_bytes(cap));
        assert(bytes.subrange(12, 16) =~= le32_bytes(f.orig_len));
        lemma_le32_of_subrange(bytes, 0, f.ts_sec);
        lemma_le32_of_subrange(bytes, 4, f.ts_usec);
        lemma_le32_of_subrange(bytes, 8, cap);
        lemma_le32_of_subrange(bytes, 12, f.orig_len);
        assert(le32(bytes, 8) as nat == f.data.len());
        assert(bytes.subrange(16, 16 + f.data.len() as int) =~= f.data);
        assert(bytes.skip(16 + f.data.len() as int) =~= tail);
        lemma_records_roundtrip(frames.drop_first());
        assert(spec_decode_records(bytes) == Some(
            seq![
                FrameModel {
                    data: f.data,
                    ts_sec: f.ts_sec,
                    ts_usec: f.ts_usec,
                    orig_len: f.orig_len,
                },
            ] + frames.drop_first(),
        ));
        assert(FrameModel {
            data: f.data,
            ts_sec: f.ts_sec,
            ts_usec: f.ts_usec,
            orig_len: f.orig_len,
        } == f);
        assert(seq![f] + frames.drop_first() =~= frames);
    }
}

proof fn lemma_le32_of_subrange(bytes: Seq<u8>, i: int, n: u32)
    requires
        0 <= i,
        i + 4 <= bytes.len(),
        bytes.subrange(i, i + 4) =~= le32_bytes(n),
    ensures
        le32(bytes, i) == n,
{
    assert(bytes[i] == le32_bytes(n)[0]);
    assert(bytes[i + 1] == le32_bytes(n)[1]);
    assert(bytes[i + 2] == le32_bytes(n)[2]);
    assert(bytes[i + 3] == le32_bytes(n)[3]);
    lemma_le32_roundtrip(n);
}

/// Round-trip law of a whole trace: for any snapshot length, link type and
/// frame sequence, the written bytes parse as a well-formed header carrying
/// those parameters, followed by exactly the frames written.
pub proof fn lemma_trace_roundtrip(snaplen: u32, link_type: u32, frames: Seq<FrameModel>)
    requires
        forall|i: int| 0 <= i < frames.len() ==> (#[trigger] frames[i]).data.len()
            <= 0xFFFF_FFFF,
    ensures
        ({
            let bytes = spec_header_bytes(snaplen, link_type) + spec_records_bytes(frames);
            &&& bytes.len() >= 24
            &&& bytes.subrange(0, 4) == spec_magic()
            &&& le32(bytes, 16) == snaplen
            &&& le32(bytes, 20) == link_type
            &&& spec_decode_records(bytes.skip(24)) == Some(frames)
        }),
{
    let header = spec_header_bytes(snaplen, link_type);
    let bytes = header + spec_records_bytes(frames);
    assert(header.len() == 24);
    assert(bytes.subrange(0, 4) =~= spec_magic());
    assert(bytes.subrange(16, 20) =~= le32_bytes(snaplen));
    assert(bytes.subrange(20, 24) =~= le32_bytes(link_type));
    lemma_le32_of_subrange(bytes, 16, snaplen);
    lemma_le32_of_subrange(bytes, 20, link_type);
    assert(bytes.skip(24) =~= spec_records_bytes(frames));
    lemma_records_roundtrip(frames);
}

} // verus!
