use socketcan_hw::can_channel::{CanCloseStep, CanOpenEvent, CanOpenStep};
use socketcan_hw::clear::ClearStep;
use socketcan_hw::isotp::{IsoTpId, IsoTpSocketOptions, IsoTpSocketRequest};
use socketcan_hw::isotp_channel::{
    message_written, IsoTpOpenEvent, IsoTpOpenStep, ReadBytesStep, WriteBytesStep,
};
use socketcan_hw::packet_writer::WriteStep;
use socketcan_hw::parallel::{parallel_written, ParallelSend, ParallelStep};
use socketcan_hw::{
    ChannelError, HardwareError, IsoTPSettings, SocketCanCanChannel, SocketCanDevice,
    SocketCanIsoTPChannel,
};
use std::io;

fn fault(text: &str) -> io::Error {
    io::Error::new(io::ErrorKind::Other, text.to_string())
}

fn device() -> SocketCanDevice {
    SocketCanDevice::new("can0".to_string())
}

fn settings(extended_addressing: bool, pad_frame: bool, can_use_ext_addr: bool) -> IsoTPSettings {
    IsoTPSettings { extended_addressing, pad_frame, can_use_ext_addr, ..IsoTPSettings::default() }
}

fn channel(send: u32, recv: u32, cfg: IsoTPSettings) -> SocketCanIsoTPChannel<u32> {
    let mut channel = SocketCanDevice::create_iso_tp_channel().unwrap();
    channel.set_ids(send, recv).unwrap();
    channel.set_iso_tp_cfg(cfg).unwrap();
    channel
}

fn request(channel: &mut SocketCanIsoTPChannel<u32>) -> IsoTpSocketRequest {
    match channel.open_step(&mut device(), IsoTpOpenEvent::DeviceLocked) {
        IsoTpOpenStep::OpenSocket { request } => request,
        _ => panic!("no socket asked for"),
    }
}

#[test]
fn default_settings_pad_standard_frames() {
    let cfg = IsoTPSettings::default();
    assert_eq!((cfg.block_size, cfg.st_min, cfg.can_speed), (8, 20, 500_000));
    assert!(cfg.pad_frame && !cfg.extended_addressing && !cfg.can_use_ext_addr);
}

#[test]
fn request_with_normal_addressing() {
    let request = request(&mut channel(0x7E0, 0x7E8, settings(false, true, false)));
    assert_eq!(request.interface, "can0");
    assert_eq!(request.tx_id, IsoTpId::Standard(0x7E0));
    assert_eq!(request.rx_id, IsoTpId::Standard(0x7E8));
    assert_eq!(
        request.options,
        IsoTpSocketOptions {
            flags: 0x004,
            frame_txtime: 10_000_000,
            ext_address: 0,
            txpad_content: 0,
            rxpad_content: 0,
            rx_ext_address: 0,
        }
    );
    assert!(request.flow_control.is_none());
}

#[test]
fn request_with_extended_addressing() {
    let request = request(&mut channel(0x18DA_10F1, 0x18DA_F110, settings(true, true, true)));
    assert_eq!(request.tx_id, IsoTpId::Extended(0x18DA_10F1));
    assert_eq!(request.rx_id, IsoTpId::Extended(0x18DA_F110));
    assert_eq!(request.options.flags, 0x006);
    assert_eq!(request.options.ext_address, 0xF1);
    assert_eq!(request.options.rx_ext_address, 0x10);
}

#[test]
fn request_without_padding() {
    let plain = request(&mut channel(1, 2, settings(false, false, false)));
    assert_eq!(plain.options.flags, 0);
    let extended = request(&mut channel(1, 2, settings(true, false, false)));
    assert_eq!(extended.options.flags, 0x002);
}

#[test]
fn standard_identifiers_are_cut_to_sixteen_bits() {
    let request = request(&mut channel(0x0012_3456, 0xFFFF_FFFF, settings(false, true, true)));
    assert_eq!(request.tx_id, IsoTpId::Standard(0x3456));
    assert_eq!(request.rx_id, IsoTpId::Standard(0xFFFF));
}

#[test]
fn open_runs_through_all_iso_tp_steps() {
    let mut device = device();
    let mut channel = channel(0x7E0, 0x7E8, IsoTPSettings::default());
    assert!(matches!(channel.open(), IsoTpOpenStep::LockDevice));
    match channel.open_step(&mut device, IsoTpOpenEvent::SocketOpened(Ok(3))) {
        IsoTpOpenStep::SetNonblocking { socket, nonblocking } => {
            assert_eq!(socket, 3);
            assert!(nonblocking);
        }
        _ => panic!("wrong step"),
    }
    assert!(!device.is_can_channel_open());
    assert!(matches!(
        channel.open_step(&mut device, IsoTpOpenEvent::NonblockingSet(3, Ok(()))),
        IsoTpOpenStep::Finished { result: Ok(()) }
    ));
    assert!(device.is_can_channel_open());
    assert!(matches!(channel.open(), IsoTpOpenStep::Finished { result: Ok(()) }));
    let old = channel
        .safe_with_iface(|socket| {
            let old = *socket;
            *socket = 4;
            Ok(old)
        })
        .unwrap();
    assert_eq!(old, 3);
    assert_eq!(channel.safe_with_iface(|socket| Ok(*socket)).unwrap(), 4);
}

#[test]
fn iso_tp_open_failures_change_nothing() {
    let mut device = device();
    let mut channel = channel(1, 2, IsoTPSettings::default());
    let text = socketcan_isotp::Error::Io { source: fault("down") }.to_string();
    assert!(text.starts_with("IO error: ") && text.contains("down"));
    let e = socketcan_isotp::Error::Io { source: fault("down") };
    match channel.open_step(&mut device, IsoTpOpenEvent::SocketOpened(Err(e))) {
        IsoTpOpenStep::Finished {
            result: Err(ChannelError::HardwareError(HardwareError::APIError { code, desc })),
        } => {
            assert_eq!(code, 99);
            assert_eq!(desc, text);
        }
        _ => panic!("wrong step"),
    }
    match channel.open_step(&mut device, IsoTpOpenEvent::NonblockingSet(3, Err(fault("mode")))) {
        IsoTpOpenStep::Finished { result: Err(ChannelError::IOError(e)) } => {
            assert_eq!(e.to_string(), "mode")
        }
        _ => panic!("wrong step"),
    }
    assert!(!device.is_can_channel_open());
    assert!(matches!(channel.open(), IsoTpOpenStep::LockDevice));
}

#[test]
fn iso_tp_close_undoes_open() {
    let mut device = device();
    let mut channel = channel(0x7E0, 0x7E8, IsoTPSettings::default());
    channel.close(&mut device).unwrap();
    channel.open_step(&mut device, IsoTpOpenEvent::NonblockingSet(3, Ok(())));
    assert!(device.is_can_channel_open());
    channel.close(&mut device).unwrap();
    assert!(!device.is_can_channel_open());
    channel.close(&mut device).unwrap();
    assert!(matches!(channel.open(), IsoTpOpenStep::LockDevice));
    assert_eq!(request(&mut channel).tx_id, IsoTpId::Standard(0x7E0));
}

#[test]
fn unheld_device_stops_every_iso_tp_close() {
    let mut device = device();
    let mut channel = channel(0x7E0, 0x7E8, IsoTPSettings::default());
    let lock_error = |result: Result<(), ChannelError>| {
        matches!(result, Err(ChannelError::HardwareError(HardwareError::LockError)))
    };
    assert!(lock_error(channel.open_unheld()));
    assert!(lock_error(channel.close_unheld()));
    channel.open_step(&mut device, IsoTpOpenEvent::NonblockingSet(3, Ok(())));
    assert!(channel.open_unheld().is_ok());
    assert!(lock_error(channel.close_unheld()));
    assert!(device.is_can_channel_open());
    assert!(matches!(channel.open(), IsoTpOpenStep::Finished { result: Ok(()) }));
}

#[test]
fn parallel_send_fails_without_the_device() {
    let can: SocketCanCanChannel<u32> = SocketCanDevice::create_can_channel().unwrap();
    assert!(matches!(
        aside().after_open(can.open_unheld()),
        ParallelStep::CloseChannel {
            result: Err(ChannelError::HardwareError(HardwareError::LockError))
        }
    ));
}

#[test]
fn closing_a_closed_iso_tp_channel_leaves_the_bus_alone() {
    let mut device = device();
    let mut can: SocketCanCanChannel<u32> = SocketCanDevice::create_can_channel().unwrap();
    can.open_step(&mut device, CanOpenEvent::NonblockingSet(1, Ok(())));
    let mut isotp = channel(1, 2, IsoTPSettings::default());
    isotp.close(&mut device).unwrap();
    assert!(device.is_can_channel_open());
}

#[test]
fn closed_iso_tp_channel_refuses() {
    let mut channel = channel(0x7E0, 0x7E8, IsoTPSettings::default());
    assert!(matches!(
        channel.safe_with_iface(|socket| Ok(*socket)),
        Err(ChannelError::InterfaceNotOpen)
    ));
    assert!(matches!(
        channel.read_bytes(10),
        ReadBytesStep::Finished { result: Err(ChannelError::InterfaceNotOpen) }
    ));
    assert!(matches!(
        channel.write_bytes(0x7E0, &[1], 10),
        WriteBytesStep::Finished { result: Err(ChannelError::InterfaceNotOpen) }
    ));
    assert!(matches!(
        channel.clear_rx_buffer(),
        ClearStep::Finished { result: Err(ChannelError::InterfaceNotOpen) }
    ));
    assert!(channel.clear_tx_buffer().is_ok());
}

/// The identifier, payload and kind of the frame that a message to `addr` goes out in.
fn sent(cfg: IsoTPSettings, addr: u32, message: &[u8]) -> Option<(u32, Vec<u8>, bool)> {
    match channel(0x7E0, 0x7E8, cfg).write_bytes(addr, message, 77) {
        WriteBytesStep::SendFrame { send } => match send.after_open(Ok(())) {
            ParallelStep::WritePackets { packets, timeout_ms } => {
                assert_eq!(timeout_ms, 77);
                assert_eq!(packets.len(), 1);
                let frame = &packets[0];
                Some((frame.get_address(), frame.get_data().to_vec(), frame.is_extended()))
            }
            other => panic!("{:?}", other),
        },
        WriteBytesStep::Finished { result: Err(ChannelError::UnsupportedRequest) } => None,
        other => panic!("{:?}", other),
    }
}

#[test]
fn tester_present_goes_out_in_one_frame() {
    assert_eq!(
        sent(settings(false, true, false), 0x7DF, &[0x3E, 0x80]),
        Some((0x7DF, vec![0x02, 0x3E, 0x80, 0, 0, 0, 0, 0], false))
    );
    assert_eq!(
        sent(settings(false, false, true), 0x7DF, &[0x3E, 0x80]),
        Some((0x7DF, vec![0x02, 0x3E, 0x80], true))
    );
}

#[test]
fn extended_addressing_splits_the_address() {
    assert_eq!(
        sent(settings(true, true, false), 0xAB12_34F1, &[0x3E]),
        Some((0x1234, vec![0xF1, 0x01, 0x3E, 0, 0, 0, 0, 0], false))
    );
    assert_eq!(
        sent(settings(true, false, false), 0x06F1_10, &[1, 2, 3, 4, 5, 6]),
        Some((0x06F1, vec![0x10, 6, 1, 2, 3, 4, 5, 6], false))
    );
}

#[test]
fn single_frame_limits() {
    let seven = [1, 2, 3, 4, 5, 6, 7];
    assert_eq!(
        sent(settings(false, false, false), 1, &seven),
        Some((1, vec![7, 1, 2, 3, 4, 5, 6, 7], false))
    );
    assert_eq!(sent(settings(false, true, false), 1, &[0; 8]), None);
    assert_eq!(sent(settings(true, true, false), 1, &seven), None);
    assert!(sent(settings(true, true, false), 1, &seven[..6]).is_some());
    assert_eq!(sent(settings(false, false, false), 1, &[]), Some((1, vec![0], false)));
    assert_eq!(sent(settings(false, true, false), 1, &[]), Some((1, vec![0; 8], false)));
}

#[test]
fn padding_keeps_messages_apart() {
    let short = sent(settings(false, true, false), 1, &[5]);
    let longer = sent(settings(false, true, false), 1, &[5, 0]);
    assert_ne!(short, longer);
}

#[test]
fn own_address_uses_the_socket_whatever_the_length() {
    let mut device = device();
    let mut channel = channel(0x7E0, 0x7E8, IsoTPSettings::default());
    channel.open_step(&mut device, IsoTpOpenEvent::NonblockingSet(3, Ok(())));
    let long = vec![0xAA; 300];
    match channel.write_bytes(0x7E0, &long, 10) {
        WriteBytesStep::WriteSocket { message } => assert_eq!(message, long),
        other => panic!("{:?}", other),
    }
    assert!(matches!(channel.write_bytes(0x7E1, &[1], 10), WriteBytesStep::SendFrame { .. }));
}

#[test]
fn socket_write_outcome_is_returned() {
    assert!(message_written(Ok(())).is_ok());
    match message_written(Err(fault("bus off"))) {
        Err(ChannelError::IOError(e)) => assert_eq!(e.to_string(), "bus off"),
        other => panic!("{:?}", other),
    }
}

#[test]
fn parallel_channel_unmarks_the_bus() {
    let mut device = device();
    let mut isotp = channel(0x7E0, 0x7E8, IsoTPSettings::default());
    isotp.open_step(&mut device, IsoTpOpenEvent::NonblockingSet(3, Ok(())));
    let mut can: SocketCanCanChannel<u32> = SocketCanDevice::create_can_channel().unwrap();
    can.open_step(&mut device, CanOpenEvent::NonblockingSet(4, Ok(())));
    can.close_locked(&mut device).unwrap();
    assert!(!device.is_can_channel_open());
    assert!(matches!(isotp.write_bytes(0x7E0, &[1], 10), WriteBytesStep::WriteSocket { .. }));
}

#[test]
fn other_address_takes_one_frame() {
    let mut device = device();
    let isotp = channel(0x7E0, 0x7E8, settings(false, true, true));
    let send = match isotp.write_bytes(0x7DF, &[0x3E], 40) {
        WriteBytesStep::SendFrame { send } => send,
        other => panic!("{:?}", other),
    };
    let mut can: SocketCanCanChannel<u32> = SocketCanDevice::create_can_channel().unwrap();
    let opened = match can.open_step(&mut device, CanOpenEvent::NonblockingSet(4, Ok(()))) {
        CanOpenStep::Finished { result } => result,
        other => panic!("{:?}", other),
    };
    let (packets, timeout_ms) = match send.after_open(opened) {
        ParallelStep::WritePackets { packets, timeout_ms } => (packets, timeout_ms),
        other => panic!("{:?}", other),
    };
    let writer = match can.write_packets(packets, timeout_ms) {
        WriteStep::SetWriteTimeout { millis: 40, writer } => writer,
        other => panic!("{:?}", other),
    };
    let writer = match writer.proceed(Ok(())) {
        WriteStep::WriteFrame { frame, writer } => {
            assert_eq!(frame.id, 0x7DF);
            assert_eq!(frame.data, [1, 0x3E, 0, 0, 0, 0, 0, 0]);
            assert!(!frame.extended);
            writer
        }
        other => panic!("{:?}", other),
    };
    let written = match writer.proceed(Ok(())) {
        WriteStep::Finished { result } => result,
        other => panic!("{:?}", other),
    };
    assert!(matches!(parallel_written(written), ParallelStep::CloseChannel { result: Ok(()) }));
    can.close_locked(&mut device).unwrap();
    assert!(!device.is_can_channel_open());
}

/// A frame that goes out beside a channel.
fn aside() -> ParallelSend {
    match channel(0x7E0, 0x7E8, IsoTPSettings::default()).write_bytes(0x7DF, &[0x3E], 40) {
        WriteBytesStep::SendFrame { send } => send,
        other => panic!("{:?}", other),
    }
}

#[test]
fn parallel_channel_that_does_not_open_sends_nothing() {
    let mut device = device();
    let mut can: SocketCanCanChannel<u32> = SocketCanDevice::create_can_channel().unwrap();
    let opened = match can.open_step(&mut device, CanOpenEvent::FilterSet(4, Err(fault("no")))) {
        CanOpenStep::Finished { result } => result,
        other => panic!("{:?}", other),
    };
    match aside().after_open(opened) {
        ParallelStep::CloseChannel { result: Err(ChannelError::IOError(e)) } => {
            assert_eq!(e.to_string(), "no")
        }
        other => panic!("{:?}", other),
    }
    assert!(!device.is_can_channel_open());
    assert!(matches!(can.close(), CanCloseStep::Finished { result: Ok(()) }));
}

#[test]
fn parallel_write_error_is_returned_after_closing() {
    match aside().after_open(Ok(())) {
        ParallelStep::WritePackets { packets, timeout_ms: 40 } => assert_eq!(packets.len(), 1),
        other => panic!("{:?}", other),
    }
    match parallel_written(Err(ChannelError::IOError(fault("bus off")))) {
        ParallelStep::CloseChannel { result: Err(ChannelError::IOError(e)) } => {
            assert_eq!(e.to_string(), "bus off")
        }
        other => panic!("{:?}", other),
    }
}

/// Runs a read whose clock shows `clocks` and whose socket gives `reads`, an error for each
/// `None`.
fn run_read(timeout_ms: u32, clocks: &[u128], reads: &[Option<u8>]) -> Option<Result<Vec<u8>, ChannelError>> {
    let mut device = device();
    let mut channel = channel(1, 2, IsoTPSettings::default());
    channel.open_step(&mut device, IsoTpOpenEvent::NonblockingSet(3, Ok(())));
    let mut step = channel.read_bytes(timeout_ms);
    let mut clock = clocks.iter();
    let mut read = reads.iter();
    loop {
        step = match step {
            ReadBytesStep::CheckClock { reader } => match clock.next() {
                Some(ms) => reader.after_clock(*ms),
                None => return None,
            },
            ReadBytesStep::ReadSocket { reader } => match read.next() {
                Some(Some(byte)) => reader.after_read(Ok(vec![*byte])),
                Some(None) => reader.after_read(Err(fault("again"))),
                None => return None,
            },
            ReadBytesStep::Finished { result } => return Some(result),
        }
    }
}

#[test]
fn read_returns_the_first_message() {
    let result = run_read(10, &[0, 5, 10], &[None, None, Some(9), Some(8)]);
    assert_eq!(result.unwrap().unwrap(), [9]);
}

#[test]
fn read_times_out() {
    assert!(matches!(
        run_read(10, &[0, 11], &[None, Some(9)]),
        Some(Err(ChannelError::ReadTimeout))
    ));
}

#[test]
fn read_without_timeout_finds_the_buffer_empty() {
    assert!(matches!(
        run_read(0, &[0, 1, 2], &[None, None, Some(9)]),
        Some(Err(ChannelError::BufferEmpty))
    ));
    assert_eq!(run_read(0, &[1], &[Some(9)]).unwrap().unwrap(), [9]);
}

#[test]
fn zero_timeout_differs_from_one_in_the_error_only() {
    assert!(matches!(
        run_read(1, &[0, 1, 2], &[None, None, Some(9)]),
        Some(Err(ChannelError::ReadTimeout))
    ));
    assert_eq!(run_read(1, &[1], &[Some(9)]).unwrap().unwrap(), [9]);
}

#[test]
fn iso_tp_clearing_starts_with_a_read() {
    let mut device = device();
    let mut channel = channel(1, 2, IsoTPSettings::default());
    channel.open_step(&mut device, IsoTpOpenEvent::NonblockingSet(3, Ok(())));
    assert!(matches!(channel.clear_rx_buffer(), ClearStep::Read));
}
