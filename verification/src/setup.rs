use vstd::prelude::*;
use crate::adapter::AdapterHandle;
use crate::codec::WORD_SIZE;
use crate::error::ChannelError;
use crate::iface::{DataLinkChannelType, NetworkInterface};
use crate::receiver::DataLinkReceiverImpl;
use crate::sender::DataLinkSenderImpl;

verus! {

/// One driver call the runner must perform next on the library's behalf.
#[derive(Clone, Copy, Debug, PartialEq, Eq, Structural)]
pub enum DriverCall {
    /// Open the adapter named by the interface handed to `datalink_channel`;
    /// a null handle is a failure.
    OpenAdapter,
    /// Apply the capture filter; this backend always requests promiscuous
    /// capture.
    SetFilter { promiscuous: bool },
    /// Ask the kernel for a receive buffer of the given size.
    SetKernelBufferSize { bytes: usize },
    /// Deliver captured data as soon as this many bytes are available.
    SetImmediateMode { min_to_copy: usize },
    /// Allocate the read-side packet descriptor and bind it to the read
    /// buffer; a null descriptor is a failure.
    AllocateReadDescriptor,
    /// Allocate the write-side packet descriptor and bind it to the write
    /// buffer; a null descriptor is a failure.
    AllocateWriteDescriptor,
    /// Free the read-side descriptor: teardown after a partial setup.
    FreeReadDescriptor,
    /// Close the opened adapter.
    CloseAdapter,
}

/// Where a channel setup stands: which driver call is outstanding, or how
/// it ended.
#[derive(Clone, Copy, Debug, PartialEq, Eq, Structural)]
pub enum SetupState {
    Opening,
    SettingFilter,
    SettingKernelBufferSize,
    SettingImmediateMode,
    AllocatingReadDescriptor,
    AllocatingWriteDescriptor,
    FreeingReadDescriptor { error: ChannelError },
    ClosingAdapter { error: ChannelError },
    Failed { error: ChannelError },
    Ready,
}

/// One channel being opened: the machine behind the factory call.
///
/// It asks the runner to perform each driver call in a fixed order — open,
/// filter, kernel buffer size, immediate mode, then the two descriptor
/// allocations, read side first — and on any failure after the open it
/// walks the teardown in reverse order: descriptors before the adapter,
/// each released exactly once. The four counters shadow the resources the
/// runner has acquired and released on the machine's instructions.
pub struct ChannelSetup {
    pub interface_name: String,
    pub read_buffer_size: usize,
    pub write_buffer_size: usize,
    pub channel_type: DataLinkChannelType,
    pub state: SetupState,
    pub opens: Ghost<int>,
    pub closes: Ghost<int>,
    pub allocs: Ghost<int>,
    pub frees: Ghost<int>,
}

impl ChannelSetup {
    /// The resource ledger each state is accountable to: whatever was
    /// acquired and not yet handed out has been released by the time the
    /// machine stops.
    pub open spec fn wf(&self) -> bool {
        &&& self.read_buffer_size as int <= usize::MAX - WORD_SIZE
        &&& match self.state {
            SetupState::Opening => self.opens@ == 0 && self.closes@ == 0 && self.allocs@ == 0
                && self.frees@ == 0,
            SetupState::SettingFilter | SetupState::SettingKernelBufferSize
            | SetupState::SettingImmediateMode | SetupState::AllocatingReadDescriptor => self.opens@
                == 1 && self.closes@ == 0 && self.allocs@ == 0 && self.frees@ == 0,
            SetupState::AllocatingWriteDescriptor | SetupState::FreeingReadDescriptor {
                ..
            } => self.opens@ == 1 && self.closes@ == 0 && self.allocs@ == 1 && self.frees@ == 0,
            SetupState::ClosingAdapter { .. } => self.opens@ == 1 && self.closes@ == 0
                && self.allocs@ == self.frees@,
            SetupState::Failed { .. } => self.opens@ == self.closes@ && self.allocs@
                == self.frees@,
            SetupState::Ready => self.opens@ == 1 && self.closes@ == 0 && self.allocs@ == 2
                && self.frees@ == 0,
        }
    }

    /// The driver call the runner must perform next; `None` once the
    /// machine has stopped, successfully or not.
    pub open spec fn spec_pending(&self) -> Option<DriverCall> {
        match self.state {
            SetupState::Opening => Some(DriverCall::OpenAdapter),
            SetupState::SettingFilter => Some(DriverCall::SetFilter { promiscuous: true }),
            SetupState::SettingKernelBufferSize => Some(
                DriverCall::SetKernelBufferSize { bytes: self.read_buffer_size },
            ),
            SetupState::SettingImmediateMode => Some(
                DriverCall::SetImmediateMode { min_to_copy: 1 },
            ),
            SetupState::AllocatingReadDescriptor => Some(DriverCall::AllocateReadDescriptor),
            SetupState::AllocatingWriteDescriptor => Some(DriverCall::AllocateWriteDescriptor),
            SetupState::FreeingReadDescriptor { .. } => Some(DriverCall::FreeReadDescriptor),
            SetupState::ClosingAdapter { .. } => Some(DriverCall::CloseAdapter),
            SetupState::Failed { .. } => None,
            SetupState::Ready => None,
        }
    }

    /// Whether the pending call reports a result — a handle or a truthy
    /// success code — to feed to `on_result`. Teardown calls report nothing
    /// and are acknowledged with `on_released` instead.
    pub open spec fn expects_result(&self) -> bool {
        match self.state {
            SetupState::Opening | SetupState::SettingFilter | SetupState::SettingKernelBufferSize
            | SetupState::SettingImmediateMode | SetupState::AllocatingReadDescriptor
            | SetupState::AllocatingWriteDescriptor => true,
            _ => false,
        }
    }

    pub fn pending(&self) -> (r: Option<DriverCall>)
        ensures
            r == self.spec_pending(),
    {
        match self.state {
            SetupState::Opening => Some(DriverCall::OpenAdapter),
            SetupState::SettingFilter => Some(DriverCall::SetFilter { promiscuous: true }),
            SetupState::SettingKernelBufferSize => Some(
                DriverCall::SetKernelBufferSize { bytes: self.read_buffer_size },
            ),
            SetupState::SettingImmediateMode => Some(
                DriverCall::SetImmediateMode { min_to_copy: 1 },
            ),
            SetupState::AllocatingReadDescriptor => Some(DriverCall::AllocateReadDescriptor),
            SetupState::AllocatingWriteDescriptor => Some(DriverCall::AllocateWriteDescriptor),
            SetupState::FreeingReadDescriptor { .. } => Some(DriverCall::FreeReadDescriptor),
            SetupState::ClosingAdapter { .. } => Some(DriverCall::CloseAdapter),
            SetupState::Failed { .. } => None,
            SetupState::Ready => None,
        }
    }

    /// Advances the setup with the outcome of the pending driver call: `ok`
    /// says whether it returned a usable handle or a truthy success code,
    /// `err_code` is the platform's last error, read at the call site.
    ///
    /// A failed open ends the setup at once with `ResourceUnavailable` —
    /// nothing was acquired. A failed configuration call fails with
    /// `DriverCallFailed`, a failed descriptor allocation with
    /// `ResourceUnavailable`; either way the machine heads into teardown so
    /// the adapter, already open, is still closed.
    pub fn on_result(&mut self, ok: bool, err_code: i32)
        requires
            old(self).wf(),
            old(self).expects_result(),
        ensures
            final(self).wf(),
            final(self).interface_name@ == old(self).interface_name@,
            final(self).read_buffer_size == old(self).read_buffer_size,
            final(self).write_buffer_size == old(self).write_buffer_size,
            final(self).channel_type == old(self).channel_type,
            match old(self).state {
                SetupState::Opening => {
                    &&& (ok ==> final(self).state == SetupState::SettingFilter)
                    &&& (!ok ==> final(self).state == (SetupState::Failed {
                        error: ChannelError::ResourceUnavailable { code: err_code },
                    }))
                },
                SetupState::SettingFilter => {
                    &&& (ok ==> final(self).state == SetupState::SettingKernelBufferSize)
                    &&& (!ok ==> final(self).state == (SetupState::ClosingAdapter {
                        error: ChannelError::DriverCallFailed { code: err_code },
                    }))
                },
                SetupState::SettingKernelBufferSize => {
                    &&& (ok ==> final(self).state == SetupState::SettingImmediateMode)
                    &&& (!ok ==> final(self).state == (SetupState::ClosingAdapter {
                        error: ChannelError::DriverCallFailed { code: err_code },
                    }))
                },
                SetupState::SettingImmediateMode => {
                    &&& (ok ==> final(self).state == SetupState::AllocatingReadDescriptor)
                    &&& (!ok ==> final(self).state == (SetupState::ClosingAdapter {
                        error: ChannelError::DriverCallFailed { code: err_code },
                    }))
                },
                SetupState::AllocatingReadDescriptor => {
                    &&& (ok ==> final(self).state == SetupState::AllocatingWriteDescriptor)
                    &&& (!ok ==> final(self).state == (SetupState::ClosingAdapter {
                        error: ChannelError::ResourceUnavailable { code: err_code },
                    }))
                },
                SetupState::AllocatingWriteDescriptor => {
                    &&& (ok ==> final(self).state == SetupState::Ready)
                    &&& (!ok ==> final(self).state == (SetupState::FreeingReadDescriptor {
                        error: ChannelError::ResourceUnavailable { code: err_code },
                    }))
                },
                _ => true,
            },
    {
        match self.state {
            SetupState::Opening => {
                if ok {
                    self.opens = Ghost(self.opens@ + 1);
                    self.state = SetupState::SettingFilter;
                } else {
                    self.state = SetupState::Failed {
                        error: ChannelError::ResourceUnavailable { code: err_code },
                    };
                }
            },
            SetupState::SettingFilter => {
                if ok {
                    self.state = SetupState::SettingKernelBufferSize;
                } else {
                    self.state = SetupState::ClosingAdapter {
                        error: ChannelError::DriverCallFailed { code: err_code },
                    };
                }
            },
            SetupState::SettingKernelBufferSize => {
                if ok {
                    self.state = SetupState::SettingImmediateMode;
                } else {
                    self.state = SetupState::ClosingAdapter {
                        error: ChannelError::DriverCallFailed { code: err_code },
                    };
                }
            },
            SetupState::SettingImmediateMode => {
                if ok {
                    self.state = SetupState::AllocatingReadDescriptor;
                } else {
                    self.state = SetupState::ClosingAdapter {
                        error: ChannelError::DriverCallFailed { code: err_code },
                    };
                }
            },
            SetupState::AllocatingReadDescriptor => {
                if ok {
                    self.allocs = Ghost(self.allocs@ + 1);
                    self.state = SetupState::AllocatingWriteDescriptor;
                } else {
                    self.state = SetupState::ClosingAdapter {
                        error: ChannelError::ResourceUnavailable { code: err_code },
                    };
                }
            },
            SetupState::AllocatingWriteDescriptor => {
                if ok {
                    self.allocs = Ghost(self.allocs@ + 1);
                    self.state = SetupState::Ready;
                } else {
                    self.state = SetupState::FreeingReadDescriptor {
                        error: ChannelError::ResourceUnavailable { code: err_code },
                    };
                }
            },
            _ => {},
        }
    }

    /// Acknowledges a completed teardown call — a descriptor free or the
    /// adapter close — which reports no result. Frees walk before the
    /// close; the close is the machine's last call.
    pub fn on_released(&mut self)
        requires
            old(self).wf(),
            old(self).state is FreeingReadDescriptor || old(self).state is ClosingAdapter,
        ensures
            final(self).wf(),
            final(self).interface_name@ == old(self).interface_name@,
            final(self).read_buffer_size == old(self).read_buffer_size,
            final(self).write_buffer_size == old(self).write_buffer_size,
            final(self).channel_type == old(self).channel_type,
            old(self).state matches SetupState::FreeingReadDescriptor { error } ==> final(self).state
                == (SetupState::ClosingAdapter { error }),
            old(self).state matches SetupState::ClosingAdapter { error } ==> final(self).state
                == (SetupState::Failed { error }),
    {
        match self.state {
            SetupState::FreeingReadDescriptor { error } => {
                self.frees = Ghost(self.frees@ + 1);
                self.state = SetupState::ClosingAdapter { error };
            },
            SetupState::ClosingAdapter { error } => {
                self.closes = Ghost(self.closes@ + 1);
                self.state = SetupState::Failed { error };
            },
            _ => {},
        }
    }

    /// Finishes the setup. On success it mints the channel: the sender
    /// owning the write-side staging buffer, the receiver owning the
    /// read-side one, and the adapter handle the two of them share, one
    /// holder each. On failure it hands back the error, every acquired
    /// resource having already been released.
    pub fn take_channel(self) -> (r: Result<
        (DataLinkSenderImpl, DataLinkReceiverImpl, AdapterHandle),
        ChannelError,
    >)
        requires
            self.wf(),
            self.state is Ready || self.state is Failed,
        ensures
            self.state matches SetupState::Failed { error } ==> r == Err::<
                (DataLinkSenderImpl, DataLinkReceiverImpl, AdapterHandle),
                ChannelError,
            >(error),
            self.state is Ready ==> (r matches Ok((snd, rcv, handle)) && snd.wf()
                && snd.buffer@.len() == self.write_buffer_size && rcv.wf() && rcv.buffer@.len()
                == self.read_buffer_size && handle.holders == 2 && (forall|i: int|
                0 <= i < snd.buffer@.len() ==> snd.buffer@[i] == 0u8) && (forall|i: int|
                0 <= i < rcv.buffer@.len() ==> rcv.buffer@[i] == 0u8)),
    {
        match self.state {
            SetupState::Failed { error } => Err(error),
            _ => {
                let write_buffer = zeroed_buffer(self.write_buffer_size);
                let read_buffer = zeroed_buffer(self.read_buffer_size);
                let descriptor_length = write_buffer.len();
                Ok(
                    (
                        DataLinkSenderImpl { buffer: write_buffer, descriptor_length },
                        DataLinkReceiverImpl { buffer: read_buffer },
                        AdapterHandle { holders: 2 },
                    ),
                )
            },
        }
    }
}

/// A failed setup leaks nothing: by the time the machine reports failure,
/// every adapter it opened has been closed — exactly once when the failure
/// came after a successful open — and every descriptor it allocated has
/// been freed.
pub proof fn lemma_failed_setup_leaks_nothing(s: &ChannelSetup)
    requires
        s.wf(),
        s.state is Failed,
    ensures
        s.opens@ == s.closes@,
        s.allocs@ == s.frees@,
{
}

/// A setup that reached `Ready` holds exactly the resources the channel
/// hands out: one opened adapter, not yet closed, and its two descriptors.
pub proof fn lemma_ready_setup_resources(s: &ChannelSetup)
    requires
        s.wf(),
        s.state is Ready,
    ensures
        s.opens@ == 1 && s.closes@ == 0,
        s.allocs@ == 2 && s.frees@ == 0,
{
}

/// Begins opening a channel over the named interface with the two staging
/// buffer sizes. The channel type records the caller's request; this
/// backend applies promiscuous capture for every supported type. The
/// returned machine's first pending call opens the adapter.
pub fn datalink_channel(
    network_interface: &NetworkInterface,
    read_buffer_size: usize,
    write_buffer_size: usize,
    channel_type: DataLinkChannelType,
) -> (s: ChannelSetup)
    requires
        read_buffer_size as int <= usize::MAX - WORD_SIZE,
    ensures
        s.wf(),
        s.state == SetupState::Opening,
        s.spec_pending() == Some(DriverCall::OpenAdapter),
        s.interface_name@ == network_interface.name@,
        s.read_buffer_size == read_buffer_size,
        s.write_buffer_size == write_buffer_size,
        s.channel_type == channel_type,
{
    ChannelSetup {
        interface_name: network_interface.name.clone(),
        read_buffer_size,
        write_buffer_size,
        channel_type,
        state: SetupState::Opening,
        opens: Ghost(0),
        closes: Ghost(0),
        allocs: Ghost(0),
        frees: Ghost(0),
    }
}

fn zeroed_buffer(n: usize) -> (v: Vec<u8>)
    ensures
        v@.len() == n,
        forall|i: int| 0 <= i < n ==> v@[i] == 0u8,
{
    let mut v: Vec<u8> = Vec::new();
    let mut i: usize = 0;
    while i < n
        invariant
            i <= n,
            v@.len() == i,
            forall|j: int| 0 <= j < i ==> v@[j] == 0u8,
        decreases n - i,
    {
        v.push(0u8);
        i = i + 1;
    }
    v
}

} // verus!
