use vstd::prelude::*;
use crate::adapter::AdapterHandle;
use crate::codec::{copy_into, spec_overwrite};
use crate::error::ChannelError;
use crate::iface::NetworkInterface;

verus! {

/// One entry in the transcript of a send batch: the builder filled the
/// frame with the given index, or the transmit call for it completed.
pub enum SendEvent {
    Built(int),
    Transmitted(int),
}

/// The transcript of a batch that has staged `built` frames and completed
/// `sent` transmit calls: builds and transmits strictly alternate, frame by
/// frame, so frame `i` is built at position `2*i` and its transmit completes
/// at position `2*i + 1`.
pub open spec fn send_history(built: int, sent: int) -> Seq<SendEvent> {
    Seq::new(
        (built + sent) as nat,
        |k: int|
            if k % 2 == 0 {
                SendEvent::Built(k / 2)
            } else {
                SendEvent::Transmitted((k - 1) / 2)
            },
    )
}

/// Frames are staged in strictly increasing order: of two build entries in
/// a batch's transcript, the earlier one carries the smaller frame index.
pub proof fn lemma_builds_in_order(built: int, sent: int, a: int, b: int)
    requires
        0 <= a < b < send_history(built, sent).len(),
        send_history(built, sent)[a] is Built,
        send_history(built, sent)[b] is Built,
    ensures
        send_history(built, sent)[a]->Built_0 < send_history(built, sent)[b]->Built_0,
{
    assert(a % 2 == 0 && b % 2 == 0);
}

/// Every frame is staged before the transmit call of any later frame: when
/// the transcript holds the completed transmit of frame `j`, the build of
/// each frame `i <= j` stands strictly before it.
pub proof fn lemma_build_precedes_later_transmit(built: int, sent: int, b: int, i: int)
    requires
        0 <= b < send_history(built, sent).len(),
        send_history(built, sent)[b] is Transmitted,
        0 <= i <= send_history(built, sent)[b]->Transmitted_0,
    ensures
        exists|a: int|
            0 <= a < b && #[trigger] send_history(built, sent)[a] == SendEvent::Built(i),
{
    assert(b % 2 == 1);
    assert(send_history(built, sent)[2 * i] == SendEvent::Built(i));
}

/// A batch that completed every transmit staged each of its frames exactly
/// once: its transcript builds frame `k / 2` at each even position `k`, and
/// nowhere else.
pub proof fn lemma_completed_batch_builds(count: int, k: int)
    requires
        0 <= count,
        0 <= k < send_history(count, count).len(),
    ensures
        send_history(count, count)[k] is Built <==> k % 2 == 0,
        k % 2 == 0 ==> send_history(count, count)[k] == SendEvent::Built(k / 2) && 0 <= k / 2
            < count,
{
    assert(send_history(count, count).len() == 2 * count);
    if k % 2 == 0 {
        assert(k <= 2 * count - 2);
        assert(k / 2 < count);
    }
}

/// `lemma_builds_in_order`, read off a live batch: in the transcript a
/// batch has produced so far, build entries carry strictly increasing frame
/// indices.
pub proof fn lemma_job_builds_in_order(
    job: &SendJob,
    sender: &DataLinkSenderImpl,
    a: int,
    b: int,
)
    requires
        job.wf(sender),
        0 <= a < b < job.history@.len(),
        job.history@[a] is Built,
        job.history@[b] is Built,
    ensures
        job.history@[a]->Built_0 < job.history@[b]->Built_0,
{
    lemma_builds_in_order(job.built as int, job.sent as int, a, b);
}

/// `lemma_build_precedes_later_transmit`, read off a live batch: every
/// frame with an index at most that of a completed transmit was staged
/// strictly before that transmit call.
pub proof fn lemma_job_builds_before_transmits(
    job: &SendJob,
    sender: &DataLinkSenderImpl,
    b: int,
    i: int,
)
    requires
        job.wf(sender),
        0 <= b < job.history@.len(),
        job.history@[b] is Transmitted,
        0 <= i <= job.history@[b]->Transmitted_0,
    ensures
        exists|a: int| 0 <= a < b && #[trigger] job.history@[a] == SendEvent::Built(i),
{
    lemma_build_precedes_later_transmit(job.built as int, job.sent as int, b, i);
}

proof fn lemma_send_history_push_built(built: int, sent: int)
    requires
        0 <= sent,
        built == sent,
    ensures
        send_history(built + 1, sent) == send_history(built, sent).push(SendEvent::Built(built)),
{
    assert(send_history(built + 1, sent) =~= send_history(built, sent).push(
        SendEvent::Built(built),
    ));
}

proof fn lemma_send_history_push_transmitted(built: int, sent: int)
    requires
        0 <= sent,
        built == sent + 1,
    ensures
        send_history(built, sent + 1) == send_history(built, sent).push(
            SendEvent::Transmitted(sent),
        ),
{
    assert(send_history(built, sent + 1) =~= send_history(built, sent).push(
        SendEvent::Transmitted(sent),
    ));
}

/// The sending half of a channel: owns the write-side staging buffer and
/// its packet descriptor, whose mutable length field normally holds the
/// buffer's full size and is pointed at a single frame only for the
/// duration of one transmit call.
#[derive(Debug)]
pub struct DataLinkSenderImpl {
    pub buffer: Vec<u8>,
    pub descriptor_length: usize,
}

/// One batch send in progress. The runner alternates staging a frame with
/// performing the transmit call the library asks for, and the transcript
/// records that alternation.
pub struct SendJob {
    pub count: usize,
    pub frame_size: usize,
    pub built: usize,
    pub sent: usize,
    pub failed: Option<ChannelError>,
    pub transmitting: bool,
    pub history: Ghost<Seq<SendEvent>>,
}

impl SendJob {
    /// How a live batch relates to its sender: counters alternate build
    /// before transmit, the whole batch fits strictly below the buffer's
    /// capacity, and the descriptor's length field is overwritten exactly
    /// while a transmit call is outstanding.
    pub open spec fn wf(&self, sender: &DataLinkSenderImpl) -> bool {
        &&& (self.count as int * self.frame_size as int) < sender.buffer@.len()
        &&& self.sent <= self.built <= self.count
        &&& self.built <= self.sent + 1
        &&& (self.transmitting ==> self.built == self.sent + 1 && sender.descriptor_length
            == self.frame_size)
        &&& (!self.transmitting ==> sender.descriptor_length == sender.buffer@.len())
        &&& (self.failed is Some ==> !self.transmitting && self.built == self.sent)
        &&& self.history@ == send_history(self.built as int, self.sent as int)
    }

    /// Whether the batch has ended: a transmit call failed, or every frame
    /// went out.
    pub open spec fn spec_done(&self) -> bool {
        self.failed is Some || self.sent == self.count
    }

    /// The batch's result, once no step is pending: the first transmit
    /// failure ends the batch at once — frames already transmitted are not
    /// rolled back — and success means every frame went out.
    pub fn outcome(&self) -> (r: Option<Result<(), ChannelError>>)
        ensures
            r is Some <==> self.spec_done(),
            self.failed matches Some(e) ==> r == Some(Err::<(), ChannelError>(e)),
            self.failed is None && self.sent == self.count ==> r == Some(Ok::<(), ChannelError>(())),
            self.failed is None && self.sent != self.count ==> r is None,
    {
        match self.failed {
            Some(e) => Some(Err(e)),
            None => if self.sent == self.count {
                Some(Ok(()))
            } else {
                None
            },
        }
    }
}

impl DataLinkSenderImpl {
    /// At rest the descriptor's length field holds the staging buffer's
    /// full size.
    pub open spec fn wf(&self) -> bool {
        self.descriptor_length == self.buffer@.len()
    }

    /// Begins a batch of `num_packets` frames of `packet_size` bytes each.
    ///
    /// Returns `None` exactly when the batch would not fit strictly below
    /// the buffer's capacity: a request that exactly fills it is rejected
    /// too. `None` is the caller-visible "does not fit" signal, distinct
    /// from a driver failure; nothing has been staged or transmitted.
    pub fn build_and_send(&self, num_packets: usize, packet_size: usize) -> (r: Option<SendJob>)
        requires
            self.wf(),
        ensures
            r is None <==> num_packets as int * packet_size as int >= self.buffer@.len(),
            r matches Some(job) ==> job.wf(self) && job.count == num_packets && job.frame_size
                == packet_size && job.built == 0 && job.sent == 0 && job.failed is None
                && !job.transmitting,
    {
        proof {
            let a = num_packets as int;
            let b = packet_size as int;
            assert(a <= 0xffff_ffff_ffff_ffff && b <= 0xffff_ffff_ffff_ffff);
            assert(a * b <= 0xffff_ffff_ffff_ffff_ffff_ffff_ffff_ffff) by (nonlinear_arith)
                requires
                    0 <= a <= 0xffff_ffff_ffff_ffff,
                    0 <= b <= 0xffff_ffff_ffff_ffff,
            ;
        }
        let requested: u128 = num_packets as u128 * packet_size as u128;
        if requested >= self.descriptor_length as u128 {
            None
        } else {
            Some(
                SendJob {
                    count: num_packets,
                    frame_size: packet_size,
                    built: 0,
                    sent: 0,
                    failed: None,
                    transmitting: false,
                    history: Ghost(send_history(0, 0)),
                },
            )
        }
    }

    /// Stages the next frame of the batch: copies `frame` over the chunk of
    /// the staging buffer that frame number `built` occupies. Chunks are
    /// consecutive and filled in strictly increasing order.
    pub fn write_frame(&mut self, job: &mut SendJob, frame: &Vec<u8>)
        requires
            old(job).wf(old(self)),
            !old(job).transmitting,
            old(job).failed is None,
            old(job).built == old(job).sent,
            old(job).built < old(job).count,
            frame@.len() == old(job).frame_size,
        ensures
            final(job).wf(final(self)),
            final(job).count == old(job).count,
            final(job).frame_size == old(job).frame_size,
            final(job).built == old(job).built + 1,
            final(job).sent == old(job).sent,
            final(job).failed is None,
            !final(job).transmitting,
            final(job).history@ == old(job).history@.push(
                SendEvent::Built(old(job).built as int),
            ),
            final(self).descriptor_length == old(self).descriptor_length,
            final(self).buffer@ == spec_overwrite(
                old(self).buffer@,
                old(job).built as int * old(job).frame_size as int,
                frame@,
            ),
    {
        let fs: usize = job.frame_size;
        let buflen: usize = self.buffer.len();
        proof {
            let bi = old(job).built as int;
            let ci = old(job).count as int;
            let fi = fs as int;
            assert(bi * fi + fi <= ci * fi) by (nonlinear_arith)
                requires
                    bi + 1 <= ci,
                    fi >= 0,
            ;
        }
        let start: usize = job.built * fs;
        copy_into(&mut self.buffer, start, frame);
        proof {
            lemma_send_history_push_built(job.built as int, job.sent as int);
        }
        job.history = Ghost(job.history@.push(SendEvent::Built(job.built as int)));
        job.built = job.built + 1;
    }

    /// Points the descriptor at exactly one frame: overwrites its length
    /// field with the frame size, so the transmit call the runner performs
    /// next sends one frame's worth of bytes.
    pub fn begin_transmit(&mut self, job: &mut SendJob)
        requires
            old(job).wf(old(self)),
            !old(job).transmitting,
            old(job).failed is None,
            old(job).built == old(job).sent + 1,
        ensures
            final(job).wf(final(self)),
            final(self).buffer@ == old(self).buffer@,
            final(self).descriptor_length == old(job).frame_size,
            final(job).count == old(job).count,
            final(job).frame_size == old(job).frame_size,
            final(job).built == old(job).built,
            final(job).sent == old(job).sent,
            final(job).failed is None,
            final(job).transmitting,
            final(job).history@ == old(job).history@,
    {
        self.descriptor_length = job.frame_size;
        job.transmitting = true;
    }

    /// Completes one transmit call: restores the descriptor's length field
    /// to the buffer's full size whatever the outcome, and on a falsy
    /// result ends the batch with the driver's error. Frames transmitted
    /// before a failure are not rolled back.
    pub fn end_transmit(&mut self, job: &mut SendJob, ok: bool, err_code: i32)
        requires
            old(job).wf(old(self)),
            old(job).transmitting,
        ensures
            final(job).wf(final(self)),
            final(self).buffer@ == old(self).buffer@,
            final(self).descriptor_length == final(self).buffer@.len(),
            final(job).count == old(job).count,
            final(job).frame_size == old(job).frame_size,
            final(job).built == old(job).built,
            final(job).sent == old(job).sent + 1,
            !final(job).transmitting,
            final(job).history@ == old(job).history@.push(
                SendEvent::Transmitted(old(job).sent as int),
            ),
            ok ==> final(job).failed is None,
            !ok ==> final(job).failed == Some(ChannelError::DriverCallFailed { code: err_code }),
    {
        proof {
            lemma_send_history_push_transmitted(job.built as int, job.sent as int);
        }
        self.descriptor_length = self.buffer.len();
        job.transmitting = false;
        job.history = Ghost(job.history@.push(SendEvent::Transmitted(job.sent as int)));
        job.sent = job.sent + 1;
        if !ok {
            job.failed = Some(ChannelError::DriverCallFailed { code: err_code });
        }
    }

    /// Sends one already-built frame: a batch of one frame of the frame's
    /// own length, staged by copying the frame in. The destination hint is
    /// unused by this backend, which always hands frames to the one opened
    /// adapter.
    pub fn send_to(&mut self, packet: &Vec<u8>, _dst: Option<NetworkInterface>) -> (r: Option<
        SendJob,
    >)
        requires
            old(self).wf(),
        ensures
            r is None <==> packet@.len() >= old(self).buffer@.len(),
            r is None ==> *final(self) == *old(self),
            r matches Some(job) ==> job.wf(final(self)) && job.count == 1 && job.frame_size
                == packet@.len() && job.built == 1 && job.sent == 0 && job.failed is None
                && !job.transmitting && final(self).buffer@ == spec_overwrite(
                old(self).buffer@,
                0,
                packet@,
            ) && final(self).descriptor_length == old(self).descriptor_length,
    {
        match self.build_and_send(1, packet.len()) {
            None => None,
            Some(mut job) => {
                self.write_frame(&mut job, packet);
                Some(job)
            },
        }
    }

    /// Tears the sender down. The runner frees the write-side descriptor
    /// first — buffers go before the adapter — and closes the adapter
    /// exactly when this was its last holder.
    pub fn close(self, handle: &mut AdapterHandle) -> (close_adapter: bool)
        requires
            old(handle).holders >= 1,
        ensures
            final(handle).holders == old(handle).holders - 1,
            close_adapter <==> final(handle).holders == 0,
    {
        handle.release()
    }
}

} // verus!
