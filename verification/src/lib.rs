//! Proxy-DHCP for PXE network boot: recognises PXE boot requests among DHCP
//! traffic, selects a boot target from an ordered responder table, and builds
//! the Proxy-DHCP offer that answers the request.
//!
//! The proxy leaves address assignment to the network's DHCP server. It
//! answers only the boot question: which host to boot from and which file to
//! ask it for.

pub mod address;
pub mod framing;
pub mod hex;
pub mod protocol;
pub mod proxy;
pub mod reply;
pub mod request;
pub mod responder;
pub mod text;
pub mod wire;

pub use address::Ipv4Address;
pub use hex::HexSlice;
pub use protocol::{Architecture, MessageType, Opcode};
pub use proxy::{Action, DHCPProxy};
pub use reply::BootReply;
pub use request::{BootRequest, Classification};
pub use responder::{DHCPProxyBuilder, DhcpPxeResponder, PxeOffer};
