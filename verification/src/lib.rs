//! Linux SocketCAN as a diagnostic adapter: the rules of the device, of its raw CAN and ISO-TP
//! channels and of the interface scan, each proved against its contract.
//!
//! The library opens no socket and reads no clock. An operation that needs either is a sequence of
//! steps: each step says what to do outside, and what came of it decides the next one. The sockets
//! themselves are values of a type that the caller chooses.

pub mod can_channel;
pub mod clear;
pub mod device;
pub mod error;
pub mod frame;
pub mod guarantees;
pub mod hardware;
pub mod isotp;
pub mod isotp_channel;
pub mod laws;
pub mod packet_reader;
pub mod packet_writer;
pub mod parallel;
pub mod scanner;
pub mod single_frame;
pub mod timing;

pub use can_channel::SocketCanCanChannel;
pub use device::SocketCanDevice;
pub use error::{ChannelError, ChannelResult, HardwareError, HardwareResult};
pub use frame::CanFrame;
pub use hardware::{HardwareCapabilities, HardwareInfo};
pub use isotp::IsoTPSettings;
pub use isotp_channel::SocketCanIsoTPChannel;
pub use scanner::SocketCanScanner;
