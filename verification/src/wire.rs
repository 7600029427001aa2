//! Between datagrams and the proxy's own types. The wire format is that of
//! the `dhcproto` crate, which decodes requests and encodes replies; this
//! module reads what the proxy needs out of a decoded message and hands the
//! fields of a reply over for encoding.

use vstd::prelude::*;
use crate::framing::{check_option_lengths, option_lengths_fit};
use crate::protocol::{
    Architecture, MessageType, Opcode, OPTION_CLASS_IDENTIFIER,
    OPTION_CLIENT_NETWORK_INTERFACE, OPTION_CLIENT_SYSTEM_ARCHITECTURE, OPTION_MESSAGE_TYPE,
    OPTION_PARAMETER_REQUEST_LIST, OPTION_USER_CLASS,
};
use crate::reply::{BootReply, ReplyView};
use crate::request::{BootRequest, RequestView};
use dhcproto::error::{DecodeError, EncodeError};
use dhcproto::v4::{DhcpOption, Flags, Message, OptionCode};

verus! {

/// A DHCPv4 message as `dhcproto` holds it.
#[verifier::external_type_specification]
#[verifier::external_body]
pub struct ExMessage(Message);

/// The error of `dhcproto`'s decoder.
#[verifier::external_type_specification]
#[verifier::external_body]
pub struct ExDecodeError(DecodeError);

/// The error of `dhcproto`'s encoder.
#[verifier::external_type_specification]
#[verifier::external_body]
pub struct ExEncodeError(EncodeError);

/// The longest hardware address a message has room for.
pub const MAX_HARDWARE_ADDRESS: u8 = 16;

/// The longest server name a message has room for.
pub const MAX_SERVER_NAME: usize = 64;

/// The flags field of a reply that asks for delivery by broadcast.
pub const FLAG_BROADCAST: u16 = 0x8000;

/// The value of an option, as far as the proxy tells options apart.
#[derive(Clone, Debug, PartialEq, Eq)]
pub enum OptionValue {
    /// Option 53: the number of the message type.
    MessageType(u8),
    /// Option 55: the codes asked for.
    ParameterRequestList(Vec<u8>),
    /// Option 60.
    ClassIdentifier(Vec<u8>),
    /// Option 77.
    UserClass(Vec<u8>),
    /// Option 93: the architecture code.
    Architecture(u16),
    /// Option 94: interface type, major and minor revision.
    NetworkInterface(u8, u8, u8),
    /// An option of any other kind.
    Other,
}

/// The value of an option as plain values.
pub enum OptionView {
    MessageType(u8),
    ParameterRequestList(Seq<u8>),
    ClassIdentifier(Seq<u8>),
    UserClass(Seq<u8>),
    Architecture(u16),
    NetworkInterface(u8, u8, u8),
    Other,
}

impl View for OptionValue {
    type V = OptionView;

    open spec fn view(&self) -> OptionView {
        match self {
            OptionValue::MessageType(t) => OptionView::MessageType(*t),
            OptionValue::ParameterRequestList(l) => OptionView::ParameterRequestList(l@),
            OptionValue::ClassIdentifier(b) => OptionView::ClassIdentifier(b@),
            OptionValue::UserClass(b) => OptionView::UserClass(b@),
            OptionValue::Architecture(a) => OptionView::Architecture(*a),
            OptionValue::NetworkInterface(t, major, minor) => {
                OptionView::NetworkInterface(*t, *major, *minor)
            },
            OptionValue::Other => OptionView::Other,
        }
    }
}

/// The view of an optional option value.
pub open spec fn option_view(value: Option<OptionValue>) -> Option<OptionView> {
    match value {
        Some(v) => Some(v@),
        None => None,
    }
}

/// The message `dhcproto` decodes from a datagram, if it decodes one.
pub uninterp spec fn decoded_message(datagram: Seq<u8>) -> Option<Message>;

/// The number in the operation field of a message.
pub uninterp spec fn message_opcode(message: Message) -> u8;

/// The transaction id of a message.
pub uninterp spec fn message_xid(message: Message) -> u32;

/// The hardware address length a message states.
pub uninterp spec fn message_hlen(message: Message) -> u8;

/// The hardware address of a message: the first bytes of the address field,
/// as many as the message states.
pub uninterp spec fn message_chaddr(message: Message) -> Seq<u8>;

/// What a message holds under an option code, if it holds anything there.
pub uninterp spec fn message_option(message: Message, code: u8) -> Option<OptionView>;

/// The datagram `dhcproto` encodes from a message made of these fields,
/// where it encodes one.
pub uninterp spec fn encoded_message(
    opcode: u8,
    xid: u32,
    flags: u16,
    chaddr: Seq<u8>,
    server_address: Seq<u8>,
    server_name: Seq<u8>,
    message_type: u8,
    vendor_extensions: Seq<u8>,
    server_identifier: Seq<u8>,
    class_identifier: Seq<u8>,
    bootfile_name: Seq<u8>,
) -> Option<Seq<u8>>;

/// `Message::decode` of `dhcproto` on a fresh `Decoder` over the datagram.
/// The outcome depends on the bytes alone. Some option lengths the decoder
/// checks only by debug assertion (codes 80, 81, 94 and 152 to 155): a
/// datagram that would trip one is kept out by the precondition.
#[verifier::external_body]
fn decode_message(datagram: &[u8]) -> (decoded: Result<Message, DecodeError>)
    requires
        option_lengths_fit(datagram@),
    ensures
        decoded is Ok <==> decoded_message(datagram@) is Some,
        decoded matches Ok(message) ==> decoded_message(datagram@) == Some(message),
{
    dhcproto::Decodable::decode(&mut dhcproto::Decoder::new(datagram))
}

/// `Message::opcode` of `dhcproto`, as the number that `u8::from` makes of
/// the opcode.
#[verifier::external_body]
fn opcode_of(message: &Message) -> (opcode: u8)
    ensures
        opcode == message_opcode(*message),
{
    u8::from(message.opcode())
}

/// `Message::xid` of `dhcproto`.
#[verifier::external_body]
fn xid_of(message: &Message) -> (xid: u32)
    ensures
        xid == message_xid(*message),
{
    message.xid()
}

/// `Message::hlen` of `dhcproto`.
#[verifier::external_body]
fn hlen_of(message: &Message) -> (hlen: u8)
    ensures
        hlen == message_hlen(*message),
{
    message.hlen()
}

/// `Message::chaddr` of `dhcproto`, copied: the first `hlen` bytes of the
/// sixteen of the address field. It panics where `hlen` exceeds sixteen,
/// which the precondition keeps out.
#[verifier::external_body]
fn chaddr_of(message: &Message) -> (chaddr: Vec<u8>)
    requires
        message_hlen(*message) <= MAX_HARDWARE_ADDRESS,
    ensures
        chaddr@ == message_chaddr(*message),
        chaddr@.len() == message_hlen(*message),
{
    message.chaddr().to_vec()
}

/// `DhcpOptions::get` of `dhcproto` on the options of a message, with the
/// option it finds turned into an `OptionValue` variant by variant.
#[verifier::external_body]
fn option_of(message: &Message, code: u8) -> (value: Option<OptionValue>)
    ensures
        option_view(value) == message_option(*message, code),
{
    let option = message.opts().get(OptionCode::from(code))?;
    Some(match option {
        DhcpOption::MessageType(t) => OptionValue::MessageType(u8::from(*t)),
        DhcpOption::ParameterRequestList(l) => {
            OptionValue::ParameterRequestList(l.iter().map(|c| u8::from(*c)).collect())
        },
        DhcpOption::ClassIdentifier(b) => OptionValue::ClassIdentifier(b.clone()),
        DhcpOption::UserClass(b) => OptionValue::UserClass(b.clone()),
        DhcpOption::ClientSystemArchitecture(a) => OptionValue::Architecture(u16::from(*a)),
        DhcpOption::ClientNetworkInterface(t, v, r) => OptionValue::NetworkInterface(*t, *v, *r),
        _ => OptionValue::Other,
    })
}

/// Builds a `dhcproto` message from the fields given and encodes it with
/// `Encodable::to_vec`: a default `Message` with flags, hardware address,
/// transaction id, server address, server name and opcode set, and the
/// options 53, 43, 54, 60 and 67 inserted. Every field the default leaves to
/// chance is set, so the outcome depends on the arguments alone.
/// `Message::set_sname` panics on a name of more than 64 bytes, which the
/// precondition keeps out.
#[verifier::external_body]
fn encode_fields(
    opcode: u8,
    xid: u32,
    flags: u16,
    chaddr: &[u8],
    server_address: [u8; 4],
    server_name: &[u8],
    message_type: u8,
    vendor_extensions: &[u8],
    server_identifier: [u8; 4],
    class_identifier: &[u8],
    bootfile_name: &[u8],
) -> (encoded: Result<Vec<u8>, EncodeError>)
    requires
        server_name@.len() <= MAX_SERVER_NAME,
    ensures
        encoded is Ok <==> encoded_message(
            opcode,
            xid,
            flags,
            chaddr@,
            server_address@,
            server_name@,
            message_type,
            vendor_extensions@,
            server_identifier@,
            class_identifier@,
            bootfile_name@,
        ) is Some,
        encoded matches Ok(bytes) ==> encoded_message(
            opcode,
            xid,
            flags,
            chaddr@,
            server_address@,
            server_name@,
            message_type,
            vendor_extensions@,
            server_identifier@,
            class_identifier@,
            bootfile_name@,
        ) == Some(bytes@),
{
    let mut m = Message::default();
    m.set_flags(Flags::new(flags)).set_chaddr(chaddr).set_xid(xid).set_siaddr(server_address)
        .set_sname(server_name).set_opcode(opcode.into());
    let options = m.opts_mut();
    options.insert(DhcpOption::MessageType(message_type.into()));
    options.insert(DhcpOption::VendorExtensions(vendor_extensions.to_vec()));
    options.insert(DhcpOption::ServerIdentifier(server_identifier.into()));
    options.insert(DhcpOption::ClassIdentifier(class_identifier.to_vec()));
    options.insert(DhcpOption::BootfileName(bootfile_name.to_vec()));
    dhcproto::Encodable::to_vec(&m)
}

/// Why a datagram yields no request.
#[derive(Clone, Copy, Debug, PartialEq, Eq, Structural)]
pub enum DecodeFailure {
    /// An option of fixed size has a length that does not fit its code.
    OptionLength,
    /// The decoder reports an error: the datagram is cut short or malformed.
    Malformed,
    /// The message states a hardware address longer than its address field.
    HardwareAddress,
}

/// Why a reply yields no datagram.
#[derive(Clone, Copy, Debug, PartialEq, Eq, Structural)]
pub enum EncodeFailure {
    /// The server name is longer than the server name field.
    ServerName,
    /// The encoder reports an error.
    Refused,
}

/// The message type a message carries in option 53.
pub open spec fn message_type_of(message: Message) -> Option<MessageType> {
    match message_option(message, OPTION_MESSAGE_TYPE) {
        Some(OptionView::MessageType(t)) => Some(MessageType::spec_from_code(t)),
        _ => None,
    }
}

/// The parameter request list a message carries in option 55.
pub open spec fn parameter_request_list_of(message: Message) -> Option<Seq<u8>> {
    match message_option(message, OPTION_PARAMETER_REQUEST_LIST) {
        Some(OptionView::ParameterRequestList(l)) => Some(l),
        _ => None,
    }
}

/// The class identifier a message carries in option 60.
pub open spec fn class_identifier_of(message: Message) -> Option<Seq<u8>> {
    match message_option(message, OPTION_CLASS_IDENTIFIER) {
        Some(OptionView::ClassIdentifier(b)) => Some(b),
        _ => None,
    }
}

/// The architecture a message carries in option 93.
pub open spec fn architecture_of(message: Message) -> Option<Architecture> {
    match message_option(message, OPTION_CLIENT_SYSTEM_ARCHITECTURE) {
        Some(OptionView::Architecture(a)) => Some(Architecture::spec_from_code(a)),
        _ => None,
    }
}

/// The network interface a message carries in option 94.
pub open spec fn network_interface_of(message: Message) -> Option<(u8, u8, u8)> {
    match message_option(message, OPTION_CLIENT_NETWORK_INTERFACE) {
        Some(OptionView::NetworkInterface(t, major, minor)) => Some((t, major, minor)),
        _ => None,
    }
}

/// The user class a message carries in option 77.
pub open spec fn user_class_of(message: Message) -> Option<Seq<u8>> {
    match message_option(message, OPTION_USER_CLASS) {
        Some(OptionView::UserClass(b)) => Some(b),
        _ => None,
    }
}

/// The request a decoded message holds: its header fields, and each option
/// the proxy looks at where the message holds an option of that kind under
/// that option's code.
pub open spec fn message_request(message: Message) -> RequestView {
    RequestView {
        opcode: Opcode::spec_from_code(message_opcode(message)),
        xid: message_xid(message),
        chaddr: message_chaddr(message),
        message_type: message_type_of(message),
        parameter_request_list: parameter_request_list_of(message),
        class_identifier: class_identifier_of(message),
        architecture: architecture_of(message),
        network_interface: network_interface_of(message),
        user_class: user_class_of(message),
    }
}

/// What reading a decoded message gives: its request, unless it states a
/// hardware address of more than sixteen bytes.
pub open spec fn read_outcome(message: Message) -> Result<RequestView, DecodeFailure> {
    if message_hlen(message) > MAX_HARDWARE_ADDRESS {
        Err(DecodeFailure::HardwareAddress)
    } else {
        Ok(message_request(message))
    }
}

/// What decoding a datagram gives: the request of the message the decoder
/// makes of it, unless an option length does not fit, the decoder reports an
/// error, or the hardware address is too long.
pub open spec fn decode_outcome(datagram: Seq<u8>) -> Result<RequestView, DecodeFailure> {
    if !option_lengths_fit(datagram) {
        Err(DecodeFailure::OptionLength)
    } else {
        match decoded_message(datagram) {
            None => Err(DecodeFailure::Malformed),
            Some(message) => read_outcome(message),
        }
    }
}

/// The view of a request or of the failure to make one.
pub open spec fn request_outcome(outcome: Result<BootRequest, DecodeFailure>) -> Result<
    RequestView,
    DecodeFailure,
> {
    match outcome {
        Ok(request) => Ok(request@),
        Err(failure) => Err(failure),
    }
}

/// Reads the request out of a decoded message.
pub fn read_message(message: &Message) -> (outcome: Result<BootRequest, DecodeFailure>)
    ensures
        request_outcome(outcome) == read_outcome(*message),
{
    if hlen_of(message) > MAX_HARDWARE_ADDRESS {
        return Err(DecodeFailure::HardwareAddress);
    }
    let message_type = match option_of(message, OPTION_MESSAGE_TYPE) {
        Some(OptionValue::MessageType(t)) => Some(MessageType::from_code(t)),
        _ => None,
    };
    let parameter_request_list = match option_of(message, OPTION_PARAMETER_REQUEST_LIST) {
        Some(OptionValue::ParameterRequestList(l)) => Some(l),
        _ => None,
    };
    let class_identifier = match option_of(message, OPTION_CLASS_IDENTIFIER) {
        Some(OptionValue::ClassIdentifier(b)) => Some(b),
        _ => None,
    };
    let architecture = match option_of(message, OPTION_CLIENT_SYSTEM_ARCHITECTURE) {
        Some(OptionValue::Architecture(a)) => Some(Architecture::from_code(a)),
        _ => None,
    };
    let network_interface = match option_of(message, OPTION_CLIENT_NETWORK_INTERFACE) {
        Some(OptionValue::NetworkInterface(t, major, minor)) => Some((t, major, minor)),
        _ => None,
    };
    let user_class = match option_of(message, OPTION_USER_CLASS) {
        Some(OptionValue::UserClass(b)) => Some(b),
        _ => None,
    };
    Ok(
        BootRequest {
            opcode: Opcode::from_code(opcode_of(message)),
            xid: xid_of(message),
            chaddr: chaddr_of(message),
            message_type,
            parameter_request_list,
            class_identifier,
            architecture,
            network_interface,
            user_class,
        },
    )
}

/// Decodes a datagram into the request it holds.
pub fn decode(datagram: &[u8]) -> (outcome: Result<BootRequest, DecodeFailure>)
    ensures
        request_outcome(outcome) == decode_outcome(datagram@),
{
    if !check_option_lengths(datagram) {
        return Err(DecodeFailure::OptionLength);
    }
    match decode_message(datagram) {
        Ok(message) => read_message(&message),
        Err(_) => Err(DecodeFailure::Malformed),
    }
}

/// The flags field of a reply.
pub open spec fn reply_flags(broadcast: bool) -> u16 {
    if broadcast {
        FLAG_BROADCAST
    } else {
        0
    }
}

/// What encoding a reply gives: the datagram the encoder makes of its
/// fields, unless the server name is longer than 64 bytes or the encoder
/// reports an error.
pub open spec fn encode_outcome(reply: ReplyView) -> Result<Seq<u8>, EncodeFailure> {
    if reply.server_name.len() > MAX_SERVER_NAME {
        Err(EncodeFailure::ServerName)
    } else {
        match encoded_message(
            reply.opcode.spec_code(),
            reply.xid,
            reply_flags(reply.broadcast),
            reply.chaddr,
            reply.server_address.spec_octets(),
            reply.server_name,
            reply.message_type.spec_code(),
            reply.vendor_extensions,
            reply.server_identifier.spec_octets(),
            reply.class_identifier,
            reply.bootfile_name,
        ) {
            Some(datagram) => Ok(datagram),
            None => Err(EncodeFailure::Refused),
        }
    }
}

/// The view of a datagram or of the failure to make one.
pub open spec fn datagram_outcome(outcome: Result<Vec<u8>, EncodeFailure>) -> Result<
    Seq<u8>,
    EncodeFailure,
> {
    match outcome {
        Ok(datagram) => Ok(datagram@),
        Err(failure) => Err(failure),
    }
}

/// Encodes a reply into the datagram that carries it.
pub fn encode(reply: &BootReply) -> (outcome: Result<Vec<u8>, EncodeFailure>)
    ensures
        datagram_outcome(outcome) == encode_outcome(reply@),
{
    if reply.server_name.len() > MAX_SERVER_NAME {
        return Err(EncodeFailure::ServerName);
    }
    let flags: u16 = if reply.broadcast {
        FLAG_BROADCAST
    } else {
        0
    };
    let encoded = encode_fields(
        reply.opcode.code(),
        reply.xid,
        flags,
        reply.chaddr.as_slice(),
        reply.server_address.octets(),
        reply.server_name.as_slice(),
        reply.message_type.code(),
        reply.vendor_extensions.as_slice(),
        reply.server_identifier.octets(),
        reply.class_identifier.as_slice(),
        reply.bootfile_name.as_slice(),
    );
    match encoded {
        Ok(datagram) => Ok(datagram),
        Err(_) => Err(EncodeFailure::Refused),
    }
}

} // verus!
