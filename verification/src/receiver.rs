use vstd::prelude::*;
use vstd::slice::slice_subrange;
use crate::adapter::AdapterHandle;
use crate::codec::{
    copy_into, decode_records, lemma_decode_records_in_bounds, recs, spec_decode, spec_overwrite,
    FrameRecord, SpecRecord, WORD_SIZE,
};
use crate::error::ChannelError;

verus! {

/// The receiving half of a channel: owns the read-side staging buffer that
/// the driver fills on each blocking receive.
#[derive(Debug)]
pub struct DataLinkReceiverImpl {
    pub buffer: Vec<u8>,
}

impl DataLinkReceiverImpl {
    /// The buffer is small enough that every aligned record cursor still
    /// fits the machine word.
    pub open spec fn wf(&self) -> bool {
        self.buffer@.len() <= usize::MAX - WORD_SIZE
    }

    /// Turns the receiver into its frame iterator. The queue starts empty:
    /// the first `next` call asks the runner for a blocking receive.
    pub fn iter(self) -> (it: DataLinkChannelIteratorImpl)
        ensures
            it.pc == self,
            it.queue() == Seq::<SpecRecord>::empty(),
            self.wf() ==> it.wf(),
    {
        DataLinkChannelIteratorImpl { pc: self, packets: Vec::new(), head: 0 }
    }

    /// Tears the receiver down. The runner frees the read-side descriptor
    /// first — buffers go before the adapter — and closes the adapter
    /// exactly when this was its last holder.
    pub fn close(self, handle: &mut AdapterHandle) -> (close_adapter: bool)
        requires
            old(handle).holders >= 1,
        ensures
            final(handle).holders == old(handle).holders - 1,
            close_adapter <==> final(handle).holders == 0,
    {
        handle.release()
    }
}

/// What one `next` call yields: the oldest queued frame, or the request to
/// perform a blocking receive because the queue ran dry.
#[derive(Clone, Copy, Debug, PartialEq, Eq, Structural)]
pub enum NextOutcome {
    Frame(FrameRecord),
    NeedReceive,
}

/// Iterates the captured frames: decodes each received buffer into a FIFO
/// queue of records and yields them one per call, asking the runner for
/// another blocking receive whenever the queue is empty.
pub struct DataLinkChannelIteratorImpl {
    pub pc: DataLinkReceiverImpl,
    pub packets: Vec<FrameRecord>,
    pub head: usize,
}

impl DataLinkChannelIteratorImpl {
    /// The records still queued, oldest first.
    pub open spec fn queue(&self) -> Seq<SpecRecord> {
        recs(self.packets@).skip(self.head as int)
    }

    /// Every queued record lies inside the receive buffer, so the frame
    /// views built over them are in bounds.
    pub open spec fn wf(&self) -> bool {
        &&& self.pc.wf()
        &&& self.head <= self.packets@.len()
        &&& forall|i: int|
            self.head <= i < self.packets@.len() ==> {
                let r = #[trigger] self.packets@[i];
                r.offset as int + r.length as int <= self.pc.buffer@.len()
            }
    }

    /// Pops the oldest queued record. With an empty queue nothing changes:
    /// the runner must perform a blocking receive and hand its outcome to
    /// `on_receive` before frames can flow again.
    pub fn next(&mut self) -> (r: NextOutcome)
        requires
            old(self).wf(),
        ensures
            final(self).wf(),
            final(self).pc == old(self).pc,
            old(self).queue().len() == 0 ==> r == NextOutcome::NeedReceive && *final(self)
                == *old(self),
            old(self).queue().len() > 0 ==> (r matches NextOutcome::Frame(rec) && rec@
                == old(self).queue()[0] && rec.offset as int + rec.length as int
                <= old(self).pc.buffer@.len() && final(self).queue() == old(self).queue().skip(1)),
    {
        if self.head < self.packets.len() {
            let rec = self.packets[self.head];
            self.head = self.head + 1;
            proof {
                assert(old(self).queue()[0] == rec@);
                assert(final(self).queue() =~= old(self).queue().skip(1));
            }
            NextOutcome::Frame(rec)
        } else {
            NextOutcome::NeedReceive
        }
    }

    /// Feeds back the outcome of one blocking receive.
    ///
    /// A falsy driver result leaves the iterator untouched — the queue stays
    /// empty — and surfaces the driver's error. Otherwise `received` holds
    /// the bytes the driver wrote into the buffer, as many as it reported
    /// delivered; they replace the buffer's prefix and are decoded into the
    /// queue. Zero delivered bytes decode to zero records, so the queue
    /// stays empty and the following `next` asks for another receive. A
    /// buffer that breaks the framing contract is a decode fault: the error
    /// is surfaced and the queue stays empty.
    pub fn on_receive(&mut self, ok: bool, err_code: i32, received: &Vec<u8>) -> (r: Result<
        usize,
        ChannelError,
    >)
        requires
            old(self).wf(),
            old(self).queue().len() == 0,
            received@.len() <= old(self).pc.buffer@.len(),
        ensures
            final(self).wf(),
            final(self).pc.buffer@.len() == old(self).pc.buffer@.len(),
            !ok ==> r == Err::<usize, ChannelError>(
                ChannelError::DriverCallFailed { code: err_code },
            ) && *final(self) == *old(self),
            ok ==> match spec_decode(received@, 0, received@.len() as int) {
                Some(s) => r matches Ok(n) && n == s.len() && final(self).queue() == s
                    && final(self).pc.buffer@ == spec_overwrite(old(self).pc.buffer@, 0, received@),
                None => r == Err::<usize, ChannelError>(
                    ChannelError::DriverCallFailed { code: 0 },
                ) && final(self).queue().len() == 0 && final(self).pc.buffer@
                    == old(self).pc.buffer@,
            },
    {
        if !ok {
            return Err(ChannelError::DriverCallFailed { code: err_code });
        }
        let n: usize = received.len();
        match decode_records(received, n) {
            Err(e) => Err(e),
            Ok(v) => {
                copy_into(&mut self.pc.buffer, 0, received);
                self.packets = v;
                self.head = 0;
                proof {
                    let s = spec_decode(received@, 0, n as int)->Some_0;
                    lemma_decode_records_in_bounds(received@, 0, n as int);
                    assert(final(self).queue() =~= recs(self.packets@));
                    assert forall|i: int| 0 <= i < self.packets@.len() implies {
                        let r = #[trigger] self.packets@[i];
                        r.offset as int + r.length as int <= self.pc.buffer@.len()
                    } by {
                        assert(recs(self.packets@)[i] == s[i]);
                        assert(self.packets@[i]@ == s[i]);
                    }
                }
                Ok(self.packets.len())
            },
        }
    }

    /// The zero-copy view of one decoded frame: the record's bytes inside
    /// the receive buffer. The view borrows the buffer, so it is valid only
    /// until the next receive overwrites it.
    pub fn frame_view(&self, rec: &FrameRecord) -> (out: &[u8])
        requires
            rec.offset as int + rec.length as int <= self.pc.buffer@.len(),
        ensures
            out@ == self.pc.buffer@.subrange(
                rec.offset as int,
                rec.offset as int + rec.length as int,
            ),
    {
        let blen: usize = self.pc.buffer.len();
        proof {
            assert(rec.offset as int + rec.length as int <= blen);
        }
        slice_subrange(self.pc.buffer.as_slice(), rec.offset, rec.offset + rec.length)
    }

    /// Tears the iterator — and with it the receiving half — down, as
    /// `DataLinkReceiverImpl::close` does.
    pub fn close(self, handle: &mut AdapterHandle) -> (close_adapter: bool)
        requires
            old(handle).holders >= 1,
        ensures
            final(handle).holders == old(handle).holders - 1,
            close_adapter <==> final(handle).holders == 0,
    {
        handle.release()
    }
}

} // verus!
