//! Logic of a device runtime: addresses of actors, the change-cipher-spec record of a TLS
//! connection, and the driver of a LoRa device.
//!
//! The waiting, the sockets and the radio are left to the caller. The functions here take what
//! came back from them and say what is to be done next.

pub mod actor;
pub mod address;
pub mod change_cipher_spec;
pub mod device;
pub mod downlink;
pub mod laws;
pub mod lora;
pub mod region;
