//! Description of an adapter: what it is called and which protocols it can carry.
use vstd::prelude::*;

verus! {

/// Protocols that an adapter can carry.
#[derive(Debug, Clone, Copy, PartialEq, Eq, Structural)]
pub struct HardwareCapabilities {
    /// ISO-TP (ISO 15765)
    pub iso_tp: bool,
    /// Raw CAN
    pub can: bool,
    /// Diagnostics over IP
    pub ip: bool,
    /// SAE J1850
    pub sae_j1850: bool,
    /// K-Line
    pub kline: bool,
    /// K-Line with KWP2000
    pub kline_kwp: bool,
    /// Chrysler SCI
    pub sci: bool,
}

/// What SocketCAN can carry: ISO-TP and raw CAN, nothing else.
pub open spec fn socket_can_protocols() -> HardwareCapabilities {
    HardwareCapabilities {
        iso_tp: true,
        can: true,
        ip: false,
        sae_j1850: false,
        kline: false,
        kline_kwp: false,
        sci: false,
    }
}

/// What SocketCAN can carry: ISO-TP and raw CAN, nothing else.
pub fn socket_can_capabilities() -> (capabilities: HardwareCapabilities)
    ensures
        capabilities == socket_can_protocols(),
{
    HardwareCapabilities {
        iso_tp: true,
        can: true,
        ip: false,
        sae_j1850: false,
        kline: false,
        kline_kwp: false,
        sci: false,
    }
}

/// Information about an adapter.
#[derive(Debug)]
pub struct HardwareInfo {
    /// Name of the adapter
    pub name: String,
    /// Vendor of the adapter
    pub vendor: Option<String>,
    /// Protocols that the adapter can carry
    pub capabilities: HardwareCapabilities,
    /// Firmware version, where the adapter has one
    pub device_fw_version: Option<String>,
    /// Version of the driver's API
    pub api_version: Option<String>,
    /// Version of the driver library
    pub library_version: Option<String>,
    /// Where the driver library lies
    pub library_location: Option<String>,
}

/// The content of a [`HardwareInfo`], with each text as its characters.
pub struct InfoModel {
    pub name: Seq<char>,
    pub vendor: Option<Seq<char>>,
    pub capabilities: HardwareCapabilities,
    pub device_fw_version: Option<Seq<char>>,
    pub api_version: Option<Seq<char>>,
    pub library_version: Option<Seq<char>>,
    pub library_location: Option<Seq<char>>,
}

/// The characters of an optional text.
pub open spec fn text(t: Option<String>) -> Option<Seq<char>> {
    match t {
        Some(s) => Some(s@),
        None => None,
    }
}

/// What is known of the CAN interface called `name`: its name and what SocketCAN can carry.
pub open spec fn socket_can_info(name: Seq<char>) -> InfoModel {
    InfoModel {
        name,
        vendor: None,
        capabilities: socket_can_protocols(),
        device_fw_version: None,
        api_version: None,
        library_version: None,
        library_location: None,
    }
}

impl View for HardwareInfo {
    type V = InfoModel;

    open spec fn view(&self) -> InfoModel {
        InfoModel {
            name: self.name@,
            vendor: text(self.vendor),
            capabilities: self.capabilities,
            device_fw_version: text(self.device_fw_version),
            api_version: text(self.api_version),
            library_version: text(self.library_version),
            library_location: text(self.library_location),
        }
    }
}

impl HardwareInfo {
    /// Describes the CAN interface called `name`.
    pub fn socket_can(name: String) -> (info: HardwareInfo)
        ensures
            info@ == socket_can_info(name@),
    {
        HardwareInfo {
            name,
            vendor: None,
            capabilities: socket_can_capabilities(),
            device_fw_version: None,
            api_version: None,
            library_version: None,
            library_location: None,
        }
    }
}

impl Clone for HardwareInfo {
    fn clone(&self) -> (copy: HardwareInfo)
        ensures
            copy@ == self@,
    {
        HardwareInfo {
            name: self.name.clone(),
            vendor: self.vendor.clone(),
            capabilities: self.capabilities,
            device_fw_version: self.device_fw_version.clone(),
            api_version: self.api_version.clone(),
            library_version: self.library_version.clone(),
            library_location: self.library_location.clone(),
        }
    }
}

} // verus!
