use socketcan_hw::can_channel::{CanCloseStep, CanOpenEvent, CanOpenStep};
use socketcan_hw::clear::{clear_after_read, ClearStep};
use socketcan_hw::frame::FrameFault;
use socketcan_hw::packet_reader::ReadStep;
use socketcan_hw::packet_writer::WriteStep;
use socketcan_hw::{
    CanFrame, ChannelError, ChannelResult, HardwareError, SocketCanCanChannel, SocketCanDevice,
};
use std::io;

fn fault(text: &str) -> io::Error {
    io::Error::new(io::ErrorKind::Other, text.to_string())
}

fn closed() -> SocketCanCanChannel<u32> {
    SocketCanDevice::create_can_channel().unwrap()
}

fn opened(device: &mut SocketCanDevice) -> SocketCanCanChannel<u32> {
    let mut channel = closed();
    channel.open_step(device, CanOpenEvent::NonblockingSet(5, Ok(())));
    channel
}

fn device() -> SocketCanDevice {
    SocketCanDevice::new("vcan0".to_string())
}

#[test]
fn open_runs_through_all_steps() {
    let mut device = device();
    let mut channel = closed();
    assert!(matches!(channel.open(), CanOpenStep::LockDevice));
    match channel.open_step(&mut device, CanOpenEvent::DeviceLocked) {
        CanOpenStep::OpenSocket { interface } => assert_eq!(interface, "vcan0"),
        other => panic!("{:?}", other),
    }
    match channel.open_step(&mut device, CanOpenEvent::SocketOpened(Ok(5))) {
        CanOpenStep::AcceptAll { socket } => assert_eq!(socket, 5),
        other => panic!("{:?}", other),
    }
    match channel.open_step(&mut device, CanOpenEvent::FilterSet(5, Ok(()))) {
        CanOpenStep::SetNonblocking { socket, nonblocking } => {
            assert_eq!(socket, 5);
            assert!(!nonblocking);
        }
        other => panic!("{:?}", other),
    }
    assert!(!device.is_can_channel_open());
    assert!(matches!(
        channel.open_step(&mut device, CanOpenEvent::NonblockingSet(5, Ok(()))),
        CanOpenStep::Finished { result: Ok(()) }
    ));
    assert!(device.is_can_channel_open());
    assert_eq!(channel.safe_with_iface(|socket| Ok(*socket)).unwrap(), 5);
    assert!(matches!(channel.open(), CanOpenStep::Finished { result: Ok(()) }));
}

#[test]
fn open_failures_change_nothing() {
    let mut device = device();
    let mut channel = closed();
    let e = socketcan::CANSocketOpenError::IOError(fault("down"));
    match channel.open_step(&mut device, CanOpenEvent::SocketOpened(Err(e))) {
        CanOpenStep::Finished {
            result: Err(ChannelError::HardwareError(HardwareError::APIError { code, desc })),
        } => {
            assert_eq!(code, 99);
            assert_eq!(desc, "IO: down");
        }
        other => panic!("{:?}", other),
    }
    match channel.open_step(&mut device, CanOpenEvent::FilterSet(5, Err(fault("filter")))) {
        CanOpenStep::Finished { result: Err(ChannelError::IOError(e)) } => {
            assert_eq!(e.to_string(), "filter")
        }
        other => panic!("{:?}", other),
    }
    match channel.open_step(&mut device, CanOpenEvent::NonblockingSet(5, Err(fault("block")))) {
        CanOpenStep::Finished { result: Err(ChannelError::IOError(e)) } => {
            assert_eq!(e.to_string(), "block")
        }
        other => panic!("{:?}", other),
    }
    assert!(!device.is_can_channel_open());
    assert!(matches!(channel.open(), CanOpenStep::LockDevice));
}

#[test]
fn close_undoes_open() {
    let mut device = device();
    let mut channel = opened(&mut device);
    assert!(device.is_can_channel_open());
    assert!(matches!(channel.close(), CanCloseStep::LockDevice));
    channel.close_locked(&mut device).unwrap();
    assert!(!device.is_can_channel_open());
    assert!(matches!(channel.close(), CanCloseStep::Finished { result: Ok(()) }));
    assert!(matches!(channel.open(), CanOpenStep::LockDevice));
}

fn is_lock_error(result: &ChannelResult<()>) -> bool {
    matches!(result, Err(ChannelError::HardwareError(HardwareError::LockError)))
}

#[test]
fn unheld_device_stops_what_needs_it() {
    let mut device = device();
    let mut channel = closed();
    assert!(is_lock_error(&channel.open_unheld()));
    assert!(matches!(channel.open(), CanOpenStep::LockDevice));
    assert!(channel.close_unheld().is_ok());
    channel.open_step(&mut device, CanOpenEvent::NonblockingSet(5, Ok(())));
    assert!(channel.open_unheld().is_ok());
    assert!(is_lock_error(&channel.close_unheld()));
    assert!(device.is_can_channel_open());
    assert_eq!(channel.safe_with_iface(|socket| Ok(*socket)).unwrap(), 5);
}

#[test]
fn closed_channel_refuses() {
    let mut channel = closed();
    assert!(matches!(
        channel.safe_with_iface(|socket| Ok(*socket)),
        Err(ChannelError::InterfaceNotOpen)
    ));
    assert!(matches!(
        channel.write_packets(vec![CanFrame::new(1, &[2], false)], 10),
        WriteStep::Finished { result: Err(ChannelError::InterfaceNotOpen) }
    ));
    assert!(matches!(
        channel.read_packets(3, 10),
        ReadStep::Finished { result: Err(ChannelError::InterfaceNotOpen) }
    ));
    assert!(matches!(
        channel.clear_rx_buffer(),
        ClearStep::Finished { result: Err(ChannelError::InterfaceNotOpen) }
    ));
    assert!(channel.clear_tx_buffer().is_ok());
    assert!(channel.set_can_cfg(500_000, true).is_ok());
}

#[test]
fn safe_with_iface_passes_errors_on() {
    let mut device = device();
    let mut channel = opened(&mut device);
    let result: Result<u8, ChannelError> =
        channel.safe_with_iface(|_| Err(ChannelError::ReadTimeout));
    assert!(matches!(result, Err(ChannelError::ReadTimeout)));
}

#[test]
fn wire_form_follows_the_identifier() {
    let small = CanFrame::new(0x7FF, &[1, 2, 3], true).to_wire().unwrap();
    assert_eq!(small.id, 0x7FF);
    assert_eq!(small.data, [1, 2, 3]);
    assert!(!small.extended && !small.remote && !small.error);
    let large = CanFrame::new(0x800, &[], false).to_wire().unwrap();
    assert_eq!(large.id, 0x800);
    assert!(large.data.is_empty());
    assert!(large.extended && !large.remote && !large.error);
    let largest = CanFrame::new(0x1FFF_FFFF, &[0; 8], false).to_wire().unwrap();
    assert_eq!(largest.id, 0x1FFF_FFFF);
    assert_eq!(largest.data, [0; 8]);
    assert!(largest.extended);
}

#[test]
fn wire_form_has_limits() {
    let long = CanFrame::new(0x2000_0000, &[0; 9], false);
    assert_eq!(long.to_wire().unwrap_err(), FrameFault::TooMuchData);
    assert!(!long.is_sendable());
    let far = CanFrame::new(0x2000_0000, &[0; 8], false);
    assert_eq!(far.to_wire().unwrap_err(), FrameFault::IdTooLarge);
    assert!(!far.is_sendable());
    assert!(CanFrame::new(0x1FFF_FFFF, &[0; 8], false).is_sendable());
}

#[test]
fn resent_frame_is_the_same() {
    let sent = CanFrame::new(0x123, &[9, 8], true).to_wire().unwrap();
    let read = CanFrame::new(sent.id, &sent.data, sent.extended);
    assert_eq!(read.get_address(), 0x123);
    assert_eq!(read.get_data(), [9, 8]);
    assert!(!read.is_extended());
    let again = read.to_wire().unwrap();
    assert_eq!((again.id, &again.data, again.extended), (sent.id, &sent.data, sent.extended));
}

#[test]
fn packets_are_written_in_order() {
    let mut device = device();
    let channel = opened(&mut device);
    let packets = vec![
        CanFrame::new(0x10, &[1], false),
        CanFrame::new(0x11, &[2, 3], false),
        CanFrame::new(0x1_0000, &[], false),
    ];
    let mut written = Vec::new();
    let mut step = channel.write_packets(packets, 250);
    let result = loop {
        let writer = match step {
            WriteStep::SetWriteTimeout { millis, writer } => {
                assert_eq!(millis, 250);
                assert!(written.is_empty());
                writer
            }
            WriteStep::WriteFrame { frame, writer } => {
                written.push((frame.id, frame.data, frame.extended));
                writer
            }
            WriteStep::Finished { result } => break result,
        };
        assert!(writer.next_is_sendable());
        step = writer.proceed(Ok(()));
    };
    assert!(result.is_ok());
    assert_eq!(
        written,
        [(0x10, vec![1], false), (0x11, vec![2, 3], false), (0x1_0000, vec![], true)]
    );
}

#[test]
fn writing_stops_at_the_first_error() {
    let mut device = device();
    let channel = opened(&mut device);
    let packets = vec![CanFrame::new(1, &[1], false), CanFrame::new(2, &[2], false)];
    let writer = match channel.write_packets(packets, 0) {
        WriteStep::SetWriteTimeout { millis: 0, writer } => writer,
        other => panic!("{:?}", other),
    };
    let writer = match writer.proceed(Ok(())) {
        WriteStep::WriteFrame { frame, writer } => {
            assert_eq!(frame.id, 1);
            writer
        }
        other => panic!("{:?}", other),
    };
    match writer.proceed(Err(fault("full"))) {
        WriteStep::Finished { result: Err(ChannelError::IOError(e)) } => {
            assert_eq!(e.to_string(), "full")
        }
        other => panic!("{:?}", other),
    }
}

#[test]
fn failed_timeout_sends_nothing() {
    let mut device = device();
    let channel = opened(&mut device);
    match channel.write_packets(vec![CanFrame::new(1, &[1], false)], 5) {
        WriteStep::SetWriteTimeout { writer, .. } => match writer.proceed(Err(fault("opt"))) {
            WriteStep::Finished { result: Err(ChannelError::IOError(e)) } => {
                assert_eq!(e.to_string(), "opt")
            }
            other => panic!("{:?}", other),
        },
        other => panic!("{:?}", other),
    }
}

#[test]
fn unsendable_packet_is_seen_when_its_turn_comes() {
    let mut device = device();
    let channel = opened(&mut device);
    let packets = vec![CanFrame::new(1, &[1], false), CanFrame::new(u32::MAX, &[2], false)];
    let writer = match channel.write_packets(packets, 5) {
        WriteStep::SetWriteTimeout { writer, .. } => writer,
        other => panic!("{:?}", other),
    };
    assert!(writer.next_is_sendable());
    match writer.proceed(Ok(())) {
        WriteStep::WriteFrame { writer, .. } => assert!(!writer.next_is_sendable()),
        other => panic!("{:?}", other),
    }
}

#[test]
fn writing_nothing_still_sets_the_timeout() {
    let mut device = device();
    let channel = opened(&mut device);
    match channel.write_packets(vec![], 5) {
        WriteStep::SetWriteTimeout { millis: 5, writer } => assert!(matches!(
            writer.proceed(Ok(())),
            WriteStep::Finished { result: Ok(()) }
        )),
        other => panic!("{:?}", other),
    }
}

/// Runs a read whose clock shows `clocks` and whose socket gives frames with the identifiers
/// `reads`, or an error for each zero.
fn run_read(max: usize, timeout_ms: u32, clocks: &[u128], reads: &[u32]) -> Option<Result<Vec<u32>, String>> {
    let mut device = device();
    let channel = opened(&mut device);
    let mut step = channel.read_packets(max, timeout_ms);
    let mut clock = clocks.iter();
    let mut read = reads.iter();
    loop {
        step = match step {
            ReadStep::CheckClock { reader } => match clock.next() {
                Some(ms) => reader.after_clock(*ms),
                None => return None,
            },
            ReadStep::ReadFrame { reader } => match read.next() {
                Some(0) => reader.after_read(Err(fault("lost"))),
                Some(id) => reader.after_read(Ok(CanFrame::new(*id, &[], false))),
                None => return None,
            },
            ReadStep::Finished { result: Ok(frames) } => {
                return Some(Ok(frames.iter().map(|f| f.get_address()).collect()))
            }
            ReadStep::Finished { result: Err(ChannelError::IOError(e)) } => {
                return Some(Err(e.to_string()))
            }
            other => panic!("{:?}", other),
        }
    }
}

#[test]
fn read_stops_at_the_number_asked_for() {
    assert_eq!(run_read(2, 10, &[0, 1, 2], &[7, 8, 9]), Some(Ok(vec![7, 8])));
}

#[test]
fn read_stops_when_time_is_over() {
    assert_eq!(run_read(5, 10, &[0, 10, 11], &[7, 8, 9]), Some(Ok(vec![7, 8])));
    assert_eq!(run_read(5, 10, &[11], &[7]), Some(Ok(vec![])));
}

#[test]
fn read_without_timeout_takes_a_millisecond() {
    assert_eq!(run_read(5, 0, &[0, 1, 2], &[7, 8, 9]), Some(Ok(vec![7, 8])));
    assert_eq!(run_read(5, 1, &[0, 1, 2], &[7, 8, 9]), Some(Ok(vec![7, 8])));
}

#[test]
fn read_of_no_particular_number_ends_with_the_time() {
    assert_eq!(run_read(0, 3, &[0, 1, 2, 4], &[7, 8, 9]), Some(Ok(vec![7, 8, 9])));
    assert_eq!(run_read(0, 3, &[0, 1, 2], &[7, 8, 9]), None);
}

#[test]
fn read_error_discards_what_arrived() {
    assert_eq!(run_read(5, 10, &[0, 1], &[7, 0]), Some(Err("lost".to_string())));
}

#[test]
fn clearing_reads_until_a_read_fails() {
    let mut device = device();
    let channel = opened(&mut device);
    assert!(matches!(channel.clear_rx_buffer(), ClearStep::Read));
    assert!(matches!(clear_after_read::<u8, u8>(&Ok(1)), ClearStep::Read));
    assert!(matches!(
        clear_after_read::<u8, u8>(&Err(1)),
        ClearStep::Finished { result: Ok(()) }
    ));
}

#[test]
fn io_errors_are_kept() {
    match ChannelError::from(fault("cable")) {
        ChannelError::IOError(e) => assert_eq!(e.to_string(), "cable"),
        other => panic!("{:?}", other),
    }
}
