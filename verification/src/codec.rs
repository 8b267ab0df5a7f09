use vstd::prelude::*;
use vstd::arithmetic::div_mod::lemma_fundamental_div_mod;
use crate::error::ChannelError;

verus! {

/// Width in bytes of the platform pointer word. The driver's record framing
/// aligns every record start to this boundary, and each header field is one
/// word wide.
pub const WORD_SIZE: usize = 8;

/// Bytes in a record header: two word-sized fields, the header length (from
/// record start to payload start) followed by the captured payload length.
pub const HEADER_SIZE: usize = 16;

/// Rounds a byte offset up to the next word boundary, the driver's rule for
/// where the record after this one starts.
pub open spec fn spec_word_align(x: int) -> int {
    ((x + (WORD_SIZE - 1)) / (WORD_SIZE as int)) * (WORD_SIZE as int)
}

/// Word alignment never moves an offset backwards, and never skips a full
/// word.
pub proof fn lemma_word_align_bounds(x: int)
    requires
        x >= 0,
    ensures
        x <= spec_word_align(x) <= x + (WORD_SIZE - 1),
{
    lemma_fundamental_div_mod(x + (WORD_SIZE - 1), WORD_SIZE as int);
}

pub fn word_align(x: usize) -> (r: usize)
    requires
        x <= usize::MAX - (WORD_SIZE - 1),
    ensures
        r == spec_word_align(x as int),
{
    proof {
        lemma_word_align_bounds(x as int);
    }
    ((x + (WORD_SIZE - 1)) / WORD_SIZE) * WORD_SIZE
}

/// The unsigned little-endian value of the word-sized field starting at
/// byte `off` of `b`.
#[verifier::opaque]
pub open spec fn spec_le_word(b: Seq<u8>, off: int) -> int
    recommends
        0 <= off,
        off + WORD_SIZE <= b.len(),
{
    b[off] as int + b[off + 1] as int * 0x100 + b[off + 2] as int * 0x1_0000 + b[off + 3] as int
        * 0x100_0000 + b[off + 4] as int * 0x1_0000_0000 + b[off + 5] as int * 0x100_0000_0000 + b[
        off + 6] as int * 0x1_0000_0000_0000 + b[off + 7] as int * 0x100_0000_0000_0000
}

/// Reads the word-sized little-endian field at byte `off`.
pub fn read_word(buf: &Vec<u8>, off: usize) -> (r: u64)
    requires
        off + WORD_SIZE <= buf@.len(),
    ensures
        r as int == spec_le_word(buf@, off as int),
{
    let n: usize = buf.len();
    proof {
        reveal(spec_le_word);
        assert(off + WORD_SIZE <= n);
    }
    buf[off] as u64 + buf[off + 1] as u64 * 0x100 + buf[off + 2] as u64 * 0x1_0000 + buf[off
        + 3] as u64 * 0x100_0000 + buf[off + 4] as u64 * 0x1_0000_0000 + buf[off + 5] as u64
        * 0x100_0000_0000 + buf[off + 6] as u64 * 0x1_0000_0000_0000 + buf[off + 7] as u64
        * 0x100_0000_0000_0000
}

/// Where one captured frame lies inside the receive buffer: `length` payload
/// bytes starting `offset` bytes from the buffer's base. A record is a view,
/// valid only until the next receive overwrites the buffer.
#[derive(Clone, Copy, Debug, PartialEq, Eq, Structural)]
pub struct FrameRecord {
    pub offset: usize,
    pub length: usize,
}

/// The mathematical shadow of a frame record.
pub struct SpecRecord {
    pub offset: int,
    pub length: int,
}

impl View for FrameRecord {
    type V = SpecRecord;

    open spec fn view(&self) -> SpecRecord {
        SpecRecord { offset: self.offset as int, length: self.length as int }
    }
}

/// The mathematical shadow of a decoded record queue.
pub open spec fn recs(v: Seq<FrameRecord>) -> Seq<SpecRecord> {
    v.map_values(|r: FrameRecord| r@)
}

/// What the receive buffer's framing means, from `cursor` up to `end` (the
/// count of bytes the driver reported as delivered).
///
/// Each record starts with a two-field header; its payload starts
/// `headerLength` bytes after the record and runs for `capturedLength`
/// bytes; the next record starts at the word-aligned end of the payload.
/// A header or payload that would reach past `end`, or a record that makes
/// no progress, is a decode fault, `None`: the driver broke its framing
/// contract and nothing after the fault can be trusted.
pub open spec fn spec_decode(b: Seq<u8>, cursor: int, end: int) -> Option<Seq<SpecRecord>>
    decreases end - cursor,
{
    if cursor >= end {
        Some(Seq::empty())
    } else if cursor + HEADER_SIZE > end {
        None
    } else {
        let hdrlen = spec_le_word(b, cursor);
        let caplen = spec_le_word(b, cursor + WORD_SIZE);
        if cursor + hdrlen + caplen > end {
            None
        } else {
            let advance = spec_word_align(hdrlen + caplen);
            if advance <= 0 {
                None
            } else {
                let next = if cursor + advance > end {
                    end
                } else {
                    cursor + advance
                };
                match spec_decode(b, next, end) {
                    Some(rest) => Some(
                        seq![SpecRecord { offset: cursor + hdrlen, length: caplen }] + rest,
                    ),
                    None => None,
                }
            }
        }
    }
}

/// One step of the framing, spelled out: what decoding from `cursor` means
/// in terms of decoding from the following record.
proof fn lemma_decode_unfold(b: Seq<u8>, cursor: int, end: int)
    requires
        cursor < end,
    ensures
        spec_decode(b, cursor, end) == ({
            if cursor + HEADER_SIZE > end {
                None::<Seq<SpecRecord>>
            } else {
                let hdrlen = spec_le_word(b, cursor);
                let caplen = spec_le_word(b, cursor + WORD_SIZE);
                if cursor + hdrlen + caplen > end {
                    None::<Seq<SpecRecord>>
                } else {
                    let advance = spec_word_align(hdrlen + caplen);
                    if advance <= 0 {
                        None::<Seq<SpecRecord>>
                    } else {
                        let next = if cursor + advance > end {
                            end
                        } else {
                            cursor + advance
                        };
                        match spec_decode(b, next, end) {
                            Some(rest) => Some(
                                seq![SpecRecord { offset: cursor + hdrlen, length: caplen }]
                                    + rest,
                            ),
                            None => None::<Seq<SpecRecord>>,
                        }
                    }
                }
            }
        }),
{
}

/// A word-sized field read inside the buffer is a non-negative number.
proof fn lemma_le_word_nonneg(b: Seq<u8>, off: int)
    requires
        0 <= off,
        off + WORD_SIZE <= b.len(),
    ensures
        spec_le_word(b, off) >= 0,
{
    reveal(spec_le_word);
}

/// Every decoded record lies within the delivered bytes, so a view built
/// over it stays inside the buffer.
pub proof fn lemma_decode_records_in_bounds(b: Seq<u8>, cursor: int, end: int)
    requires
        0 <= cursor,
        end <= b.len(),
        spec_decode(b, cursor, end) is Some,
    ensures
        forall|i: int|
            0 <= i < spec_decode(b, cursor, end)->Some_0.len() ==> {
                let r = #[trigger] spec_decode(b, cursor, end)->Some_0[i];
                0 <= r.offset && 0 <= r.length && r.offset + r.length <= end
            },
    decreases end - cursor,
{
    if cursor >= end {
    } else {
        assert(cursor + HEADER_SIZE <= end);
        lemma_le_word_nonneg(b, cursor);
        lemma_le_word_nonneg(b, cursor + WORD_SIZE);
        let hdrlen = spec_le_word(b, cursor);
        let caplen = spec_le_word(b, cursor + WORD_SIZE);
        let advance = spec_word_align(hdrlen + caplen);
        let next = if cursor + advance > end {
            end
        } else {
            cursor + advance
        };
        lemma_decode_records_in_bounds(b, next, end);
        let s = spec_decode(b, cursor, end)->Some_0;
        let rest = spec_decode(b, next, end)->Some_0;
        assert forall|i: int| 0 <= i < s.len() implies {
            let r = #[trigger] s[i];
            0 <= r.offset && 0 <= r.length && r.offset + r.length <= end
        } by {
            if i > 0 {
                assert(s[i] == rest[i - 1]);
            }
        }
    }
}

/// A receive that delivered no bytes decodes to no records at all.
pub proof fn lemma_empty_receive_decodes_nothing(b: Seq<u8>)
    ensures
        spec_decode(b, 0, 0) == Some(Seq::<SpecRecord>::empty()),
{
}

/// Decodes the first `bytes_received` bytes of the receive buffer into the
/// queue of frame records the driver framed there, in buffer order.
///
/// A buffer that breaks the framing contract — a header or payload running
/// past the delivered bytes, or a record of no width — is reported as a
/// driver failure with code 0, since the driver produced it and no platform
/// error code accompanies it.
pub fn decode_records(buf: &Vec<u8>, bytes_received: usize) -> (r: Result<
    Vec<FrameRecord>,
    ChannelError,
>)
    requires
        bytes_received <= buf@.len(),
        buf@.len() <= usize::MAX - WORD_SIZE,
    ensures
        match spec_decode(buf@, 0, bytes_received as int) {
            Some(s) => r matches Ok(v) && recs(v@) == s,
            None => r == Err::<Vec<FrameRecord>, ChannelError>(
                ChannelError::DriverCallFailed { code: 0 },
            ),
        },
{
    let end: usize = bytes_received;
    let mut records: Vec<FrameRecord> = Vec::new();
    let mut cursor: usize = 0;
    while cursor < end
        invariant
            end == bytes_received,
            cursor <= end,
            end <= buf@.len(),
            buf@.len() <= usize::MAX - WORD_SIZE,
            match spec_decode(buf@, cursor as int, end as int) {
                Some(rest) => spec_decode(buf@, 0, end as int) == Some(recs(records@) + rest),
                None => spec_decode(buf@, 0, end as int) is None,
            },
        decreases end - cursor,
    {
        let ghost tail0 = spec_decode(buf@, cursor as int, end as int);
        proof {
            lemma_decode_unfold(buf@, cursor as int, end as int);
        }
        if end - cursor < HEADER_SIZE {
            assert(tail0 is None);
            return Err(ChannelError::DriverCallFailed { code: 0 });
        }
        let hdr_w: u64 = read_word(buf, cursor);
        let cap_w: u64 = read_word(buf, cursor + WORD_SIZE);
        let remaining: usize = end - cursor;
        let total_wide: u128 = hdr_w as u128 + cap_w as u128;
        if total_wide > remaining as u128 {
            assert(tail0 is None);
            return Err(ChannelError::DriverCallFailed { code: 0 });
        }
        proof {
            assert(hdr_w as int + cap_w as int <= remaining as int);
        }
        let offset: usize = cursor + hdr_w as usize;
        let length: usize = cap_w as usize;
        let ghost recs_before = records@;
        records.push(FrameRecord { offset, length });
        let total: usize = hdr_w as usize + cap_w as usize;
        let advance: usize = word_align(total);
        if advance == 0 {
            assert(tail0 is None);
            return Err(ChannelError::DriverCallFailed { code: 0 });
        }
        let next: usize = if remaining < advance {
            end
        } else {
            cursor + advance
        };
        proof {
            let b = buf@;
            let c = cursor as int;
            let e = end as int;
            let hdrlen = spec_le_word(b, c);
            let caplen = spec_le_word(b, c + WORD_SIZE);
            let rec = SpecRecord { offset: c + hdrlen, length: caplen };
            assert(FrameRecord { offset, length }@ == rec);
            assert(records@ == recs_before.push(FrameRecord { offset, length }));
            assert(recs(records@) =~= recs(recs_before) + seq![rec]);
            assert(next as int == (if c + (advance as int) > e {
                e
            } else {
                c + (advance as int)
            }));
            if spec_decode(b, next as int, e) is Some {
                let rest = spec_decode(b, next as int, e)->Some_0;
                assert(tail0 == Some(seq![rec] + rest));
                assert(recs(recs_before) + (seq![rec] + rest) =~= recs(records@) + rest);
            } else {
                assert(tail0 is None);
            }
        }
        cursor = next;
    }
    proof {
        assert(spec_decode(buf@, cursor as int, end as int) == Some(Seq::<SpecRecord>::empty()));
        assert(recs(records@) + Seq::<SpecRecord>::empty() =~= recs(records@));
    }
    Ok(records)
}

/// The staging buffer after the bytes of `frame` replace those at `start`.
pub open spec fn spec_overwrite(buf: Seq<u8>, start: int, frame: Seq<u8>) -> Seq<u8>
    recommends
        0 <= start,
        start + frame.len() <= buf.len(),
{
    buf.subrange(0, start) + frame + buf.subrange(start + frame.len(), buf.len() as int)
}

pub(crate) fn copy_into(buf: &mut Vec<u8>, start: usize, frame: &Vec<u8>)
    requires
        start + frame@.len() <= old(buf)@.len(),
    ensures
        final(buf)@ == spec_overwrite(old(buf)@, start as int, frame@),
{
    let fs: usize = frame.len();
    let buflen: usize = buf.len();
    let ghost buf0 = buf@;
    let mut i: usize = 0;
    while i < fs
        invariant
            i <= fs,
            fs == frame@.len(),
            start + fs <= buflen,
            buf@.len() == buflen,
            buf0.len() == buflen,
            forall|j: int| 0 <= j < buflen && !(start <= j < start + i) ==> buf@[j] == buf0[j],
            forall|j: int| 0 <= j < i ==> buf@[start + j] == frame@[j],
        decreases fs - i,
    {
        let b: u8 = frame[i];
        buf[start + i] = b;
        i = i + 1;
    }
    proof {
        assert(buf@ =~= spec_overwrite(buf0, start as int, frame@));
    }
}

} // verus!
