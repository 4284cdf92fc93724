//! Host side of the ioscpy mirror: the wire format spoken with the phone's
//! daemon, device selection, version notices and a few platform decisions.

pub mod wire;
pub mod protocol;
pub mod text;
pub mod update;
pub mod nonce;
pub mod device;
pub mod payload;
pub mod handshake;
pub mod platform;
pub mod wayland_compat;
