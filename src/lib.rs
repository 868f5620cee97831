//! Session management for a virtual-HID relay driver: device identities,
//! registration requests and the grab / release lifecycle.
pub mod device;
pub mod error;
pub mod fingerprint;
pub mod interface;
pub mod request;
pub mod session;

pub use device::DeviceData;
pub use interface::DKEvent;
