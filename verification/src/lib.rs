//! Core of a network traffic analyzer: a layered protocol dissector that
//! turns raw frame bytes into structured records, a binary trace-file codec,
//! an observer registry for fanning frames out to consumers, and the state
//! machine of the capture lifecycle. All logic here is pure: live capture,
//! file handles and scheduling live outside this crate.

pub mod capture;
pub mod errors;
pub mod facade;
pub mod interface;
pub mod laws;
pub mod packets;
pub mod wire;
pub mod trace;
pub mod registry;
pub mod render;

pub use capture::{PacketCapture, CaptureState};
pub use errors::CaptureError;
pub use facade::AnansiFacade;
pub use interface::{NetworkInterface, format_interface_list, validate_interface};
pub use packets::{PacketProcessor, PacketInfo};
pub use registry::ObserverRegistry;
pub use render::format_mac;
pub use trace::{RawFrame, PcapWriter, PcapReader, TraceError};
