//! A CAN network interface, as the device that channels are opened on.
use vstd::prelude::*;

use crate::can_channel::SocketCanCanChannel;
use crate::error::HardwareResult;
use crate::hardware::{socket_can_info, HardwareInfo, InfoModel};
use crate::isotp_channel::{unopened, SocketCanIsoTPChannel};

verus! {

/// SocketCAN device
#[derive(Debug)]
pub struct SocketCanDevice {
    info: HardwareInfo,
    canbus_active: bool,
    isotp_active: bool,
}

/// State of a [`SocketCanDevice`].
pub struct DeviceModel {
    /// What the device is
    pub info: InfoModel,
    /// Whether the bus is in use
    pub canbus_active: bool,
    /// Whether the device counts an ISO-TP channel as open
    pub isotp_active: bool,
}

/// The device for the interface called `name`, before any channel was opened on it.
pub open spec fn fresh_device(name: Seq<char>) -> DeviceModel {
    DeviceModel { info: socket_can_info(name), canbus_active: false, isotp_active: false }
}

/// `device` with its bus marked as in use or not, and nothing else changed.
pub open spec fn with_canbus(device: DeviceModel, active: bool) -> DeviceModel {
    DeviceModel { canbus_active: active, ..device }
}

impl View for SocketCanDevice {
    type V = DeviceModel;

    closed spec fn view(&self) -> DeviceModel {
        DeviceModel {
            info: self.info@,
            canbus_active: self.canbus_active,
            isotp_active: self.isotp_active,
        }
    }
}

impl SocketCanDevice {
    /// The device for the interface called `if_name`, with no channel open.
    pub fn new(if_name: String) -> (device: Self)
        ensures
            device@ == fresh_device(if_name@),
    {
        SocketCanDevice {
            info: HardwareInfo::socket_can(if_name),
            canbus_active: false,
            isotp_active: false,
        }
    }

    /// An ISO-TP channel, not open yet and with default settings.
    pub fn create_iso_tp_channel<S>() -> (result: HardwareResult<SocketCanIsoTPChannel<S>>)
        ensures
            result matches Ok(channel) && channel@ == unopened::<S>(),
    {
        Ok(SocketCanIsoTPChannel::new_unopened())
    }

    /// A raw CAN channel, not open yet.
    pub fn create_can_channel<S>() -> (result: HardwareResult<SocketCanCanChannel<S>>)
        ensures
            result matches Ok(channel) && channel@ is None,
    {
        Ok(SocketCanCanChannel::new_unopened())
    }

    /// What the device is.
    pub fn get_info(&self) -> (info: &HardwareInfo)
        ensures
            info@ == self@.info,
    {
        &self.info
    }

    /// Whether the device counts an ISO-TP channel as open.
    pub fn is_iso_tp_channel_open(&self) -> (open: bool)
        ensures
            open == self@.isotp_active,
    {
        self.isotp_active
    }

    /// Whether the bus is in use.
    pub fn is_can_channel_open(&self) -> (open: bool)
        ensures
            open == self@.canbus_active,
    {
        self.canbus_active
    }

    /// Marks the bus as in use or not.
    pub(crate) fn set_canbus_active(&mut self, active: bool)
        ensures
            final(self)@ == with_canbus(old(self)@, active),
    {
        self.canbus_active = active;
    }
}

} // verus!
