use socketcan_hw::isotp_channel::{IsoTpOpenEvent, IsoTpOpenStep};
use socketcan_hw::{
    ChannelError, HardwareCapabilities, HardwareError, SocketCanCanChannel, SocketCanDevice,
    SocketCanIsoTPChannel, SocketCanScanner,
};
use std::io;

fn names(scanner: &SocketCanScanner) -> Vec<String> {
    scanner
        .list_devices()
        .into_iter()
        .map(|info| info.name)
        .collect()
}

fn scan(paths: &[&str]) -> SocketCanScanner {
    SocketCanScanner::new(Ok(paths.iter().map(|p| Ok(p.to_string())).collect()))
}

#[test]
fn fresh_device_is_idle() {
    let device = SocketCanDevice::new("can0".to_string());
    assert!(!device.is_can_channel_open());
    assert!(!device.is_iso_tp_channel_open());
    let info = device.get_info();
    assert_eq!(info.name, "can0");
    assert_eq!(
        info.capabilities,
        HardwareCapabilities {
            iso_tp: true,
            can: true,
            ip: false,
            sae_j1850: false,
            kline: false,
            kline_kwp: false,
            sci: false,
        }
    );
    assert!(info.vendor.is_none());
    assert!(info.device_fw_version.is_none());
    assert!(info.api_version.is_none());
    assert!(info.library_version.is_none());
    assert!(info.library_location.is_none());
}

#[test]
fn new_channels_are_closed() {
    let can: SocketCanCanChannel<u8> = SocketCanDevice::create_can_channel().unwrap();
    let isotp: SocketCanIsoTPChannel<u8> = SocketCanDevice::create_iso_tp_channel().unwrap();
    assert!(matches!(
        can.read_packets(1, 1),
        socketcan_hw::packet_reader::ReadStep::Finished {
            result: Err(ChannelError::InterfaceNotOpen)
        }
    ));
    assert!(matches!(
        isotp.read_bytes(1),
        socketcan_hw::isotp_channel::ReadBytesStep::Finished {
            result: Err(ChannelError::InterfaceNotOpen)
        }
    ));
}

#[test]
fn iso_tp_channel_marks_the_bus_only() {
    let mut device = SocketCanDevice::new("can0".to_string());
    let mut isotp: SocketCanIsoTPChannel<u8> = SocketCanDevice::create_iso_tp_channel().unwrap();
    isotp.open_step(&mut device, IsoTpOpenEvent::NonblockingSet(7, Ok(())));
    assert!(matches!(isotp.open(), IsoTpOpenStep::Finished { result: Ok(()) }));
    assert!(device.is_can_channel_open());
    assert!(!device.is_iso_tp_channel_open());
    isotp.close(&mut device).unwrap();
    assert!(!device.is_can_channel_open());
    assert_eq!(device.get_info().name, "can0");
}

#[test]
fn scan_keeps_names_with_can_in_order() {
    let scanner = scan(&[
        "/sys/class/net/vcan1",
        "/sys/class/net/eth0",
        "/sys/class/net/can0",
        "/sys/class/net/slcan0",
        "/sys/class/net/lo",
    ]);
    assert_eq!(names(&scanner), ["vcan1", "can0", "slcan0"]);
}

#[test]
fn scan_looks_at_the_last_component_only() {
    let scanner = scan(&["/can/eth0", "can0", "/scan/", "", "/a/caan", "/a/ca/n", "/a/Can0", "x/can"]);
    assert_eq!(names(&scanner), ["can0", "can"]);
}

#[test]
fn scan_counts_characters_not_bytes() {
    let scanner = scan(&["/sys/é/écané"]);
    assert_eq!(names(&scanner), ["écané"]);
}

#[test]
fn scan_passes_over_unreadable_entries() {
    let entries = vec![
        Ok("/sys/class/net/can0".to_string()),
        Err(io::Error::new(io::ErrorKind::Other, "gone")),
        Ok("/sys/class/net/can1".to_string()),
    ];
    assert_eq!(names(&SocketCanScanner::new(Ok(entries))), ["can0", "can1"]);
}

#[test]
fn scan_without_listing_finds_nothing() {
    let scanner = SocketCanScanner::new(Err(io::Error::new(io::ErrorKind::NotFound, "none")));
    assert!(scanner.list_devices().is_empty());
    assert!(matches!(scanner.open_device_by_index(0), Err(HardwareError::DeviceNotFound)));
}

#[test]
fn devices_open_by_index_and_by_name() {
    let scanner = scan(&["/sys/class/net/can0", "/sys/class/net/can1"]);
    let by_index = scanner.open_device_by_index(1).unwrap();
    let by_name = scanner.open_device_by_name("can1").unwrap();
    assert_eq!(by_index.get_info().name, "can1");
    assert_eq!(by_name.get_info().name, "can1");
    assert!(!by_name.is_can_channel_open());
    assert!(matches!(scanner.open_device_by_index(2), Err(HardwareError::DeviceNotFound)));
    assert!(matches!(scanner.open_device_by_name("can2"), Err(HardwareError::DeviceNotFound)));
    assert!(matches!(scanner.open_device_by_name("can"), Err(HardwareError::DeviceNotFound)));
    assert!(matches!(scanner.open_device_by_name(""), Err(HardwareError::DeviceNotFound)));
}

#[test]
fn listed_devices_are_copies_of_what_was_found() {
    let scanner = scan(&["/sys/class/net/can0"]);
    let list = scanner.list_devices();
    assert_eq!(list.len(), 1);
    assert!(list[0].capabilities.iso_tp && list[0].capabilities.can);
    assert!(!list[0].capabilities.kline);
    assert!(list[0].vendor.is_none());
}
