//! The Proxy-DHCP offer that answers a PXE boot request.

use vstd::prelude::*;
use vstd::string::*;
use vstd::utf8::*;
use crate::address::Ipv4Address;
use crate::protocol::{MessageType, Opcode};
use crate::request::{pxe_client, pxe_client_bytes, BootRequest, RequestView};
use crate::responder::{OfferView, PxeOffer};

verus! {

/// The vendor-specific information every offer carries: PXE discovery
/// control (sub-option 6) of length 8 with all eight bytes zero, and the end
/// marker.
pub open spec fn vendor_extensions() -> Seq<u8> {
    seq![6u8, 8u8, 0u8, 0u8, 0u8, 0u8, 0u8, 0u8, 0u8, 0u8, 255u8]
}

/// The vendor-specific information every offer carries.
pub fn vendor_extensions_bytes() -> (bytes: Vec<u8>)
    ensures
        bytes@ == vendor_extensions(),
        bytes@.len() == 11,
{
    let mut bytes: Vec<u8> = Vec::new();
    bytes.push(6);
    bytes.push(8);
    let mut i: usize = 0;
    while i < 8
        invariant
            0 <= i <= 8,
            bytes@.len() == 2 + i,
            bytes@[0] == 6,
            bytes@[1] == 8,
            forall|j: int| 2 <= j < 2 + i ==> bytes@[j] == 0,
        decreases 8 - i,
    {
        bytes.push(0);
        i = i + 1;
    }
    bytes.push(255);
    assert(bytes@ =~= vendor_extensions());
    bytes
}

/// A reply to a boot request: the header fields the proxy sets and the five
/// options it sends.
#[derive(Clone, Debug, PartialEq, Eq)]
pub struct BootReply {
    /// The operation field.
    pub opcode: Opcode,
    /// The transaction id, taken from the request.
    pub xid: u32,
    /// The client's hardware address, taken from the request.
    pub chaddr: Vec<u8>,
    /// Whether the reply asks to be delivered by broadcast.
    pub broadcast: bool,
    /// The server address field: the host to boot from.
    pub server_address: Ipv4Address,
    /// The server name field.
    pub server_name: Vec<u8>,
    /// Option 53.
    pub message_type: MessageType,
    /// Option 43.
    pub vendor_extensions: Vec<u8>,
    /// Option 54.
    pub server_identifier: Ipv4Address,
    /// Option 60.
    pub class_identifier: Vec<u8>,
    /// Option 67.
    pub bootfile_name: Vec<u8>,
}

/// A reply as plain values.
pub struct ReplyView {
    pub opcode: Opcode,
    pub xid: u32,
    pub chaddr: Seq<u8>,
    pub broadcast: bool,
    pub server_address: Ipv4Address,
    pub server_name: Seq<u8>,
    pub message_type: MessageType,
    pub vendor_extensions: Seq<u8>,
    pub server_identifier: Ipv4Address,
    pub class_identifier: Seq<u8>,
    pub bootfile_name: Seq<u8>,
}

impl View for BootReply {
    type V = ReplyView;

    open spec fn view(&self) -> ReplyView {
        ReplyView {
            opcode: self.opcode,
            xid: self.xid,
            chaddr: self.chaddr@,
            broadcast: self.broadcast,
            server_address: self.server_address,
            server_name: self.server_name@,
            message_type: self.message_type,
            vendor_extensions: self.vendor_extensions@,
            server_identifier: self.server_identifier,
            class_identifier: self.class_identifier@,
            bootfile_name: self.bootfile_name@,
        }
    }
}

/// The offer that answers `request` with `offer`: a broadcast boot reply
/// that echoes the request's transaction id and hardware address, names the
/// target as server address, as server name in dotted-decimal text and as
/// server identifier, and carries the message type Offer, the fixed vendor
/// information, the class identifier `PXEClient` and the boot file name.
pub open spec fn offer_reply(request: RequestView, offer: OfferView) -> ReplyView {
    ReplyView {
        opcode: Opcode::BootReply,
        xid: request.xid,
        chaddr: request.chaddr,
        broadcast: true,
        server_address: offer.target_address,
        server_name: offer.target_address.spec_dotted_decimal(),
        message_type: MessageType::Offer,
        vendor_extensions: vendor_extensions(),
        server_identifier: offer.target_address,
        class_identifier: pxe_client(),
        bootfile_name: encode_utf8(offer.boot_file),
    }
}

impl BootReply {
    /// Builds the offer that answers `request` with `offer`. A reply is
    /// made for a PXE boot request and for nothing else.
    pub fn offer(request: &BootRequest, offer: &PxeOffer) -> (reply: BootReply)
        requires
            request@.is_pxe_request(),
        ensures
            reply@ == offer_reply(request@, offer@),
            reply@.xid == request@.xid,
            reply@.chaddr == request@.chaddr,
            reply@.vendor_extensions == vendor_extensions(),
            reply@.server_name.len() <= 15,
    {
        BootReply {
            opcode: Opcode::BootReply,
            xid: request.xid,
            chaddr: request.chaddr.clone(),
            broadcast: true,
            server_address: offer.target_address,
            server_name: offer.target_address.dotted_decimal(),
            message_type: MessageType::Offer,
            vendor_extensions: vendor_extensions_bytes(),
            server_identifier: offer.target_address,
            class_identifier: pxe_client_bytes(),
            bootfile_name: offer.boot_file.as_str().as_bytes_vec(),
        }
    }
}

/// Every offer echoes the transaction id and the hardware address of the
/// request it answers.
pub proof fn lemma_reply_echoes_request(request: RequestView, offer: OfferView)
    ensures
        offer_reply(request, offer).xid == request.xid,
        offer_reply(request, offer).chaddr == request.chaddr,
{
}

/// The vendor information of every offer is the same eleven bytes.
pub proof fn lemma_reply_vendor_extensions(request: RequestView, offer: OfferView)
    ensures
        offer_reply(request, offer).vendor_extensions == seq![
            6u8,
            8u8,
            0u8,
            0u8,
            0u8,
            0u8,
            0u8,
            0u8,
            0u8,
            0u8,
            255u8,
        ],
        offer_reply(request, offer).vendor_extensions.len() == 11,
{
}

} // verus!
