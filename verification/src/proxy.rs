//! The proxy itself: a responder table and the answer it gives to each
//! datagram that arrives.
//!
//! A datagram is decoded, classified, matched against the table and
//! answered with an encoded offer. Whatever is not a PXE boot request,
//! malformed datagrams included, gets no answer.

use vstd::prelude::*;
use vstd::utf8::*;
use crate::address::Ipv4Address;
use crate::protocol::{MessageType, Opcode};
use crate::reply::{offer_reply, vendor_extensions, BootReply, ReplyView};
use crate::request::{is_pxe_class, BootRequest, Classification, ClassificationView, RequestView};
use crate::responder::{
    rules_of, select, select_offer, zero_offer, DHCPProxyBuilder, DhcpPxeResponder, ResponderRule,
};
use crate::wire::{decode, decode_outcome, encode, encode_outcome, DecodeFailure, EncodeFailure};

verus! {

/// The UDP port the proxy listens on.
pub const SERVER_PORT: u16 = 67;

/// The UDP port replies are sent to.
pub const CLIENT_PORT: u16 = 68;

/// The size of the buffer datagrams are received into.
pub const DATAGRAM_CAPACITY: usize = 1500;

/// The reply a table of rules gives to a message: none unless the message is
/// a PXE boot request, else the offer of the target the table selects for
/// the client's architecture and user class.
pub open spec fn answer(request: RequestView, rules: Seq<ResponderRule>) -> Option<ReplyView> {
    match request.classify() {
        ClassificationView::NotPxe => None,
        ClassificationView::PxeRequest { architecture, user_class } => Some(
            offer_reply(request, select_offer(rules, architecture, user_class)),
        ),
    }
}

/// The view of an optional reply.
pub open spec fn reply_view(reply: Option<BootReply>) -> Option<ReplyView> {
    match reply {
        Some(r) => Some(r@),
        None => None,
    }
}

/// What the proxy does with a datagram.
#[derive(Clone, Debug, PartialEq, Eq)]
pub enum Action {
    /// The datagram is malformed: it is dropped and the proxy listens on.
    Drop(DecodeFailure),
    /// The datagram is DHCP traffic of another kind: it is left alone and
    /// the proxy listens on.
    Ignore {
        /// The hardware address of the sender.
        client: Vec<u8>,
    },
    /// The datagram is a PXE boot request: `datagram` goes out by broadcast.
    Broadcast {
        /// The address to send to.
        address: Ipv4Address,
        /// The port to send to.
        port: u16,
        /// The encoded reply.
        datagram: Vec<u8>,
        /// The reply that `datagram` encodes.
        reply: BootReply,
    },
    /// The reply could not be encoded: the proxy gives up listening.
    Fail(EncodeFailure),
}

/// An action as plain values.
pub enum ActionView {
    Drop(DecodeFailure),
    Ignore { client: Seq<u8> },
    Broadcast { address: Ipv4Address, port: u16, datagram: Seq<u8>, reply: ReplyView },
    Fail(EncodeFailure),
}

impl View for Action {
    type V = ActionView;

    open spec fn view(&self) -> ActionView {
        match self {
            Action::Drop(failure) => ActionView::Drop(*failure),
            Action::Ignore { client } => ActionView::Ignore { client: client@ },
            Action::Broadcast { address, port, datagram, reply } => ActionView::Broadcast {
                address: *address,
                port: *port,
                datagram: datagram@,
                reply: reply@,
            },
            Action::Fail(failure) => ActionView::Fail(*failure),
        }
    }
}

/// The limited broadcast address, `255.255.255.255`.
pub open spec fn limited_broadcast() -> Ipv4Address {
    Ipv4Address { a: 255, b: 255, c: 255, d: 255 }
}

/// What the proxy does with a datagram under a table of rules: it drops
/// what does not decode, leaves alone what is not a PXE boot request, and
/// answers a PXE boot request with the encoded offer, sent to the client
/// port on the limited broadcast address.
pub open spec fn reaction(datagram: Seq<u8>, rules: Seq<ResponderRule>) -> ActionView {
    match decode_outcome(datagram) {
        Err(failure) => ActionView::Drop(failure),
        Ok(request) => match answer(request, rules) {
            None => ActionView::Ignore { client: request.chaddr },
            Some(reply) => match encode_outcome(reply) {
                Ok(encoded) => ActionView::Broadcast {
                    address: limited_broadcast(),
                    port: CLIENT_PORT,
                    datagram: encoded,
                    reply,
                },
                Err(failure) => ActionView::Fail(failure),
            },
        },
    }
}

/// A Proxy-DHCP responder for PXE clients.
#[derive(Clone, Debug)]
pub struct DHCPProxy {
    responders: Vec<DhcpPxeResponder>,
}

impl DHCPProxy {
    /// The rules of the proxy's table, first to last.
    pub closed spec fn rules(self) -> Seq<ResponderRule> {
        rules_of(self.responders@)
    }

    /// A proxy that answers by the given table.
    pub fn new(responders: Vec<DhcpPxeResponder>) -> (proxy: DHCPProxy)
        ensures
            proxy.rules() == rules_of(responders@),
    {
        DHCPProxy { responders }
    }

    /// Answers a decoded message by a table of rules: nothing unless the
    /// message is a PXE boot request, the offer of the selected target
    /// otherwise.
    pub fn handle_packet(message: &BootRequest, responders: &Vec<DhcpPxeResponder>) -> (reply:
        Option<BootReply>)
        ensures
            reply_view(reply) == answer(message@, rules_of(responders@)),
            reply is Some <==> message@.is_pxe_request(),
            reply matches Some(r) ==> (r@.xid == message@.xid && r@.chaddr == message@.chaddr
                && r@.vendor_extensions == vendor_extensions() && r@.server_name.len() <= 15),
    {
        match message.classify() {
            Classification::NotPxe => None,
            Classification::PxeRequest { architecture, user_class } => {
                let offer = select(responders, architecture, &user_class);
                Some(BootReply::offer(message, &offer))
            },
        }
    }

    /// Answers a decoded message by the proxy's table.
    pub fn reply_to(&self, message: &BootRequest) -> (reply: Option<BootReply>)
        ensures
            reply_view(reply) == answer(message@, self.rules()),
    {
        DHCPProxy::handle_packet(message, &self.responders)
    }

    /// Decides what to do with a datagram that has arrived.
    pub fn react(&self, datagram: &[u8]) -> (action: Action)
        ensures
            action@ == reaction(datagram@, self.rules()),
    {
        let request = match decode(datagram) {
            Ok(request) => request,
            Err(failure) => {
                return Action::Drop(failure);
            },
        };
        let reply = match DHCPProxy::handle_packet(&request, &self.responders) {
            Some(reply) => reply,
            None => {
                return Action::Ignore { client: request.chaddr };
            },
        };
        match encode(&reply) {
            Ok(encoded) => Action::Broadcast {
                address: Ipv4Address::new(255, 255, 255, 255),
                port: CLIENT_PORT,
                datagram: encoded,
                reply,
            },
            Err(failure) => Action::Fail(failure),
        }
    }
}

impl DHCPProxyBuilder {
    /// The proxy that answers by the rules collected.
    pub fn build(self) -> (proxy: DHCPProxy)
        ensures
            proxy.rules() == self.rules(),
    {
        DHCPProxy::new(self.into_responders())
    }
}

/// A message is answered exactly when it is a PXE boot request. One that
/// meets all six conditions is answered, and the same message as a boot
/// reply, or with any one of the five options taken away, is not.
pub proof fn lemma_answered_iff_pxe_request(request: RequestView, rules: Seq<ResponderRule>)
    ensures
        answer(request, rules) is Some <==> request.is_pxe_request(),
        request.is_pxe_request() ==> {
            &&& answer(RequestView { opcode: Opcode::BootReply, ..request }, rules) is None
            &&& answer(RequestView { message_type: None, ..request }, rules) is None
            &&& answer(RequestView { parameter_request_list: None, ..request }, rules) is None
            &&& answer(RequestView { class_identifier: None, ..request }, rules) is None
            &&& answer(RequestView { architecture: None, ..request }, rules) is None
            &&& answer(RequestView { network_interface: None, ..request }, rules) is None
        },
{
}

/// A message whose type is neither Discover nor Request is never answered,
/// whatever options it carries and whatever the table holds.
pub proof fn lemma_other_message_types_unanswered(
    request: RequestView,
    rules: Seq<ResponderRule>,
)
    requires
        request.message_type matches Some(t) ==> t.spec_code() != MessageType::Discover.spec_code()
            && t.spec_code() != MessageType::Request.spec_code(),
    ensures
        answer(request, rules) is None,
{
}

/// A PXE boot request to which no rule applies is still answered: with the
/// target address `0.0.0.0` and an empty boot file name.
pub proof fn lemma_unmatched_request_answered(request: RequestView, rules: Seq<ResponderRule>)
    requires
        request.is_pxe_request(),
        forall|i: int|
            0 <= i < rules.len() ==> !(#[trigger] rules[i]).matches(
                request.architecture->0.spec_code(),
                request.requested_user_class(),
            ),
    ensures
        answer(request, rules) == Some(offer_reply(request, zero_offer())),
        answer(request, rules)->0.server_address == (Ipv4Address { a: 0, b: 0, c: 0, d: 0 }),
        answer(request, rules)->0.server_identifier == (Ipv4Address { a: 0, b: 0, c: 0, d: 0 }),
        answer(request, rules)->0.bootfile_name == Seq::<u8>::empty(),
{
    crate::responder::lemma_no_match_gives_zero_offer(
        rules,
        request.architecture->0.spec_code(),
        request.requested_user_class(),
    );
    assert(encode_utf8(Seq::<char>::empty()) =~= Seq::<u8>::empty());
}

/// Every reply carries the transaction id and the hardware address of the
/// request it answers.
pub proof fn lemma_answer_echoes_request(request: RequestView, rules: Seq<ResponderRule>)
    ensures
        answer(request, rules) matches Some(reply) ==> (reply.xid == request.xid && reply.chaddr
            == request.chaddr),
{
}

/// Every reply is a broadcast boot reply of type Offer whose vendor
/// information is the eleven bytes 6, 8, eight zeros and 255, and whose
/// class identifier is `PXEClient`.
pub proof fn lemma_answer_shape(request: RequestView, rules: Seq<ResponderRule>)
    ensures
        answer(request, rules) matches Some(reply) ==> {
            &&& reply.opcode == Opcode::BootReply
            &&& reply.broadcast
            &&& reply.message_type == MessageType::Offer
            &&& reply.vendor_extensions == seq![
                6u8,
                8u8,
                0u8,
                0u8,
                0u8,
                0u8,
                0u8,
                0u8,
                0u8,
                0u8,
                255u8,
            ]
            &&& reply.vendor_extensions.len() == 11
            &&& reply.server_identifier == reply.server_address
            &&& reply.server_name == reply.server_address.spec_dotted_decimal()
            &&& is_pxe_class(reply.class_identifier)
        },
{
    if answer(request, rules) is Some {
        lemma_pxe_client_is_text();
    }
}

/// The bytes of `PXEClient` are text and begin with themselves.
pub proof fn lemma_pxe_client_is_text()
    ensures
        is_pxe_class(crate::request::pxe_client()),
{
    let bytes = crate::request::pxe_client();
    let chars: Seq<char> = seq!['P', 'X', 'E', 'C', 'l', 'i', 'e', 'n', 't'];
    assert(is_ascii_chars(chars));
    is_ascii_chars_encode_utf8(chars);
    assert(encode_utf8(chars) =~= bytes);
    encode_utf8_valid_utf8(chars);
    assert(bytes.subrange(0, bytes.len() as int) =~= bytes);
}

/// A datagram is answered exactly when it decodes to a PXE boot request whose
/// offer the encoder accepts, and the answer goes to the client port on the
/// limited broadcast address. What does not decode is dropped, what is not
/// a PXE boot request is left alone, and a reply is never given up for the
/// length of its server name.
pub proof fn lemma_reaction_by_kind(datagram: Seq<u8>, rules: Seq<ResponderRule>)
    ensures
        reaction(datagram, rules) is Drop <==> decode_outcome(datagram) is Err,
        reaction(datagram, rules) is Ignore <==> (decode_outcome(datagram) matches Ok(request)
            && !request.is_pxe_request()),
        (reaction(datagram, rules) is Broadcast || reaction(datagram, rules) is Fail) <==> (
        decode_outcome(datagram) matches Ok(request) && request.is_pxe_request()),
        reaction(datagram, rules) matches ActionView::Broadcast { address, port, reply, .. } ==> (
        address == limited_broadcast() && port == 68 && Some(reply) == answer(
            decode_outcome(datagram)->Ok_0,
            rules,
        )),
        reaction(datagram, rules) != ActionView::Fail(EncodeFailure::ServerName),
{
    match decode_outcome(datagram) {
        Ok(request) => match answer(request, rules) {
            Some(reply) => {
                crate::address::lemma_dotted_decimal_length(reply.server_address);
            },
            None => {},
        },
        Err(_) => {},
    }
}

} // verus!
