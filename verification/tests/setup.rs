use winpcap_channel::error::ChannelError;
use winpcap_channel::iface::{DataLinkChannelType, NetworkInterface};
use winpcap_channel::setup::{datalink_channel, ChannelSetup, DriverCall, SetupState};

struct MockDriver {
    // which calls succeed; teardown calls have no result
    open_ok: bool,
    filter_ok: bool,
    buffer_size_ok: bool,
    immediate_ok: bool,
    read_descriptor_ok: bool,
    write_descriptor_ok: bool,
    error_code: i32,
    opened: usize,
    closed: usize,
    allocated: usize,
    freed: usize,
    calls: Vec<DriverCall>,
}

impl MockDriver {
    fn all_ok() -> MockDriver {
        MockDriver {
            open_ok: true,
            filter_ok: true,
            buffer_size_ok: true,
            immediate_ok: true,
            read_descriptor_ok: true,
            write_descriptor_ok: true,
            error_code: 0,
            opened: 0,
            closed: 0,
            allocated: 0,
            freed: 0,
            calls: Vec::new(),
        }
    }

    fn run(&mut self, setup: &mut ChannelSetup) {
        while let Some(call) = setup.pending() {
            self.calls.push(call);
            match call {
                DriverCall::OpenAdapter => {
                    if self.open_ok {
                        self.opened += 1;
                    }
                    setup.on_result(self.open_ok, self.error_code);
                }
                DriverCall::SetFilter { .. } => setup.on_result(self.filter_ok, self.error_code),
                DriverCall::SetKernelBufferSize { .. } => {
                    setup.on_result(self.buffer_size_ok, self.error_code)
                }
                DriverCall::SetImmediateMode { .. } => {
                    setup.on_result(self.immediate_ok, self.error_code)
                }
                DriverCall::AllocateReadDescriptor => {
                    if self.read_descriptor_ok {
                        self.allocated += 1;
                    }
                    setup.on_result(self.read_descriptor_ok, self.error_code);
                }
                DriverCall::AllocateWriteDescriptor => {
                    if self.write_descriptor_ok {
                        self.allocated += 1;
                    }
                    setup.on_result(self.write_descriptor_ok, self.error_code);
                }
                DriverCall::FreeReadDescriptor => {
                    self.freed += 1;
                    setup.on_released();
                }
                DriverCall::CloseAdapter => {
                    self.closed += 1;
                    setup.on_released();
                }
            }
        }
    }
}

fn eth0() -> NetworkInterface {
    NetworkInterface { name: String::from("eth0") }
}

#[test]
fn setup_performs_the_driver_calls_in_order() {
    let mut setup = datalink_channel(&eth0(), 2048, 1024, DataLinkChannelType::Layer2);
    let mut driver = MockDriver::all_ok();
    driver.run(&mut setup);
    assert_eq!(
        driver.calls,
        vec![
            DriverCall::OpenAdapter,
            DriverCall::SetFilter { promiscuous: true },
            DriverCall::SetKernelBufferSize { bytes: 2048 },
            DriverCall::SetImmediateMode { min_to_copy: 1 },
            DriverCall::AllocateReadDescriptor,
            DriverCall::AllocateWriteDescriptor,
        ]
    );
    assert_eq!(setup.state, SetupState::Ready);
    let (sender, receiver, handle) = setup.take_channel().unwrap();
    assert_eq!(sender.buffer.len(), 1024);
    assert_eq!(sender.descriptor_length, 1024);
    assert_eq!(receiver.buffer.len(), 2048);
    assert_eq!(handle.holders, 2);
}

#[test]
fn failed_open_reports_resource_unavailable_and_closes_nothing() {
    let mut setup = datalink_channel(&eth0(), 256, 256, DataLinkChannelType::Layer2);
    let mut driver = MockDriver::all_ok();
    driver.open_ok = false;
    driver.error_code = 5;
    driver.run(&mut setup);
    assert_eq!(driver.opened, 0);
    assert_eq!(driver.closed, 0);
    let err = setup.take_channel().unwrap_err();
    assert_eq!(err, ChannelError::ResourceUnavailable { code: 5 });
}

#[test]
fn failed_kernel_buffer_size_still_closes_the_adapter_once() {
    let mut setup = datalink_channel(&eth0(), 256, 256, DataLinkChannelType::Layer2);
    let mut driver = MockDriver::all_ok();
    driver.buffer_size_ok = false;
    driver.error_code = 31;
    driver.run(&mut setup);
    // The filter call succeeded, the kernel-buffer-size call failed: the
    // adapter that was opened is closed exactly once all the same.
    assert_eq!(driver.opened, 1);
    assert_eq!(driver.closed, 1);
    assert!(driver.calls.contains(&DriverCall::SetFilter { promiscuous: true }));
    assert_eq!(driver.calls.last(), Some(&DriverCall::CloseAdapter));
    let err = setup.take_channel().unwrap_err();
    assert_eq!(err, ChannelError::DriverCallFailed { code: 31 });
}

#[test]
fn failed_write_descriptor_frees_the_read_descriptor_before_the_close() {
    let mut setup = datalink_channel(&eth0(), 256, 256, DataLinkChannelType::Layer2);
    let mut driver = MockDriver::all_ok();
    driver.write_descriptor_ok = false;
    driver.error_code = 8;
    driver.run(&mut setup);
    assert_eq!(driver.opened, 1);
    assert_eq!(driver.closed, 1);
    assert_eq!(driver.allocated, 1);
    assert_eq!(driver.freed, 1);
    let tail = &driver.calls[driver.calls.len() - 2..];
    assert_eq!(tail, &[DriverCall::FreeReadDescriptor, DriverCall::CloseAdapter]);
    let err = setup.take_channel().unwrap_err();
    assert_eq!(err, ChannelError::ResourceUnavailable { code: 8 });
}

#[test]
fn channel_type_is_recorded_but_does_not_change_the_filter() {
    let mut setup = datalink_channel(&eth0(), 128, 128, DataLinkChannelType::Layer3(0x0800));
    let mut driver = MockDriver::all_ok();
    driver.run(&mut setup);
    assert_eq!(setup.channel_type, DataLinkChannelType::Layer3(0x0800));
    assert!(driver.calls.contains(&DriverCall::SetFilter { promiscuous: true }));
}

#[test]
fn opening_and_destroying_a_channel_closes_the_adapter_exactly_once() {
    let mut setup = datalink_channel(&eth0(), 512, 512, DataLinkChannelType::Layer2);
    let mut driver = MockDriver::all_ok();
    driver.run(&mut setup);
    let (sender, receiver, mut handle) = setup.take_channel().unwrap();
    // Destroy the channel immediately: each half frees its descriptor, and
    // whichever release is last closes the adapter.
    if sender.close(&mut handle) {
        driver.closed += 1;
    }
    driver.freed += 1;
    if receiver.close(&mut handle) {
        driver.closed += 1;
    }
    driver.freed += 1;
    assert_eq!(driver.opened, 1);
    assert_eq!(driver.closed, 1);
    assert_eq!(driver.allocated, 2);
    assert_eq!(driver.freed, 2);
}
