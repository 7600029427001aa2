//! Boot requests and the classification that tells a PXE boot request from
//! other DHCP traffic.
//!
//! A message is a PXE request when it is a boot request that carries five
//! options in the shape PXE firmware sends them: a message type of Discover
//! or Request, a parameter request list, a class identifier that begins with
//! `PXEClient`, a client system architecture and a client network interface.
//! A message that lacks any one of these is not a PXE request.

use vstd::prelude::*;
use vstd::utf8::*;
use crate::protocol::{Architecture, MessageType, Opcode};
use crate::text::{starts_with, string_or_empty, text_of, text_or_empty};

verus! {

/// The bytes of the text `PXEClient`, with which the class identifier of
/// every PXE client begins.
pub open spec fn pxe_client() -> Seq<u8> {
    seq![80u8, 88u8, 69u8, 67u8, 108u8, 105u8, 101u8, 110u8, 116u8]
}

/// The bytes of the text `PXEClient`.
pub fn pxe_client_bytes() -> (bytes: Vec<u8>)
    ensures
        bytes@ == pxe_client(),
{
    let mut bytes: Vec<u8> = Vec::new();
    bytes.push(80);
    bytes.push(88);
    bytes.push(69);
    bytes.push(67);
    bytes.push(108);
    bytes.push(105);
    bytes.push(101);
    bytes.push(110);
    bytes.push(116);
    assert(bytes@ =~= pxe_client());
    bytes
}

/// Whether a class identifier marks a PXE client: the payload is well-formed
/// UTF-8 text and begins with `PXEClient`.
pub open spec fn is_pxe_class(class_identifier: Seq<u8>) -> bool {
    valid_utf8(class_identifier) && pxe_client().is_prefix_of(class_identifier)
}

/// Whether a class identifier marks a PXE client.
pub fn is_pxe_client_class(class_identifier: &[u8]) -> (yes: bool)
    ensures
        yes == is_pxe_class(class_identifier@),
{
    if text_of(class_identifier).is_none() {
        return false;
    }
    let prefix = pxe_client_bytes();
    starts_with(class_identifier, prefix.as_slice())
}

/// A decoded DHCP message, as far as the proxy reads it: the fixed header
/// fields it echoes and the options it looks at, each absent or decoded.
#[derive(Clone, Debug, PartialEq, Eq)]
pub struct BootRequest {
    /// The operation field.
    pub opcode: Opcode,
    /// The transaction id the client chose.
    pub xid: u32,
    /// The client's hardware address.
    pub chaddr: Vec<u8>,
    /// Option 53.
    pub message_type: Option<MessageType>,
    /// Option 55: the codes of the options the client asks for.
    pub parameter_request_list: Option<Vec<u8>>,
    /// Option 60.
    pub class_identifier: Option<Vec<u8>>,
    /// Option 93.
    pub architecture: Option<Architecture>,
    /// Option 94: interface type, major and minor revision.
    pub network_interface: Option<(u8, u8, u8)>,
    /// Option 77.
    pub user_class: Option<Vec<u8>>,
}

/// A decoded DHCP message as plain values.
pub struct RequestView {
    pub opcode: Opcode,
    pub xid: u32,
    pub chaddr: Seq<u8>,
    pub message_type: Option<MessageType>,
    pub parameter_request_list: Option<Seq<u8>>,
    pub class_identifier: Option<Seq<u8>>,
    pub architecture: Option<Architecture>,
    pub network_interface: Option<(u8, u8, u8)>,
    pub user_class: Option<Seq<u8>>,
}

/// The view of an optional byte string.
pub open spec fn bytes_of(bytes: Option<Vec<u8>>) -> Option<Seq<u8>> {
    match bytes {
        Some(b) => Some(b@),
        None => None,
    }
}

impl View for BootRequest {
    type V = RequestView;

    open spec fn view(&self) -> RequestView {
        RequestView {
            opcode: self.opcode,
            xid: self.xid,
            chaddr: self.chaddr@,
            message_type: self.message_type,
            parameter_request_list: bytes_of(self.parameter_request_list),
            class_identifier: bytes_of(self.class_identifier),
            architecture: self.architecture,
            network_interface: self.network_interface,
            user_class: bytes_of(self.user_class),
        }
    }
}

impl RequestView {
    /// Whether the message is a PXE boot request: it is a boot request, and
    /// each of the five options PXE firmware sends is present and well formed.
    pub open spec fn is_pxe_request(self) -> bool {
        &&& self.opcode.spec_code() == Opcode::BootRequest.spec_code()
        &&& self.message_type matches Some(t) && t.spec_starts_boot()
        &&& self.parameter_request_list is Some
        &&& self.class_identifier matches Some(c) && is_pxe_class(c)
        &&& self.architecture is Some
        &&& self.network_interface is Some
    }

    /// The user class the client asks with: the text of option 77 when the
    /// option is there and holds text, the empty text otherwise.
    pub open spec fn requested_user_class(self) -> Seq<char> {
        match self.user_class {
            Some(c) => text_or_empty(c),
            None => Seq::empty(),
        }
    }

    /// The class of the message.
    pub open spec fn classify(self) -> ClassificationView {
        if self.is_pxe_request() {
            ClassificationView::PxeRequest {
                architecture: self.architecture->0.spec_code(),
                user_class: self.requested_user_class(),
            }
        } else {
            ClassificationView::NotPxe
        }
    }
}

/// The class of a message.
#[derive(Clone, Debug, PartialEq, Eq)]
pub enum Classification {
    /// Some other DHCP traffic: to be ignored.
    NotPxe,
    /// A PXE boot request, with what selects its boot target.
    PxeRequest {
        /// The architecture the client reports.
        architecture: Architecture,
        /// The user class the client reports, empty when it reports none.
        user_class: String,
    },
}

/// A classification as plain values.
pub enum ClassificationView {
    NotPxe,
    PxeRequest { architecture: u16, user_class: Seq<char> },
}

impl View for Classification {
    type V = ClassificationView;

    open spec fn view(&self) -> ClassificationView {
        match self {
            Classification::NotPxe => ClassificationView::NotPxe,
            Classification::PxeRequest { architecture, user_class } => {
                ClassificationView::PxeRequest {
                    architecture: architecture.spec_code(),
                    user_class: user_class@,
                }
            },
        }
    }
}

impl BootRequest {
    /// The user class the client asks with.
    pub fn requested_user_class(&self) -> (user_class: String)
        ensures
            user_class@ == self@.requested_user_class(),
    {
        match &self.user_class {
            Some(c) => string_or_empty(c.as_slice()),
            None => String::new(),
        }
    }

    /// Sorts the message: a PXE boot request with its architecture and user
    /// class, or other traffic.
    pub fn classify(&self) -> (class: Classification)
        ensures
            class@ == self@.classify(),
            class is PxeRequest <==> self@.is_pxe_request(),
    {
        if self.opcode.code() != Opcode::BootRequest.code() {
            return Classification::NotPxe;
        }
        let message_type = match self.message_type {
            Some(t) => t,
            None => {
                return Classification::NotPxe;
            },
        };
        if self.parameter_request_list.is_none() {
            return Classification::NotPxe;
        }
        let class_identifier = match &self.class_identifier {
            Some(c) => c,
            None => {
                return Classification::NotPxe;
            },
        };
        let architecture = match self.architecture {
            Some(a) => a,
            None => {
                return Classification::NotPxe;
            },
        };
        if self.network_interface.is_none() {
            return Classification::NotPxe;
        }
        if !message_type.starts_boot() {
            return Classification::NotPxe;
        }
        if !is_pxe_client_class(class_identifier.as_slice()) {
            return Classification::NotPxe;
        }
        let user_class = self.requested_user_class();
        Classification::PxeRequest { architecture, user_class }
    }
}

/// A message that meets all six conditions is a PXE request, and one that
/// fails any single one of them is not: a boot request that carries a
/// parameter request list, an architecture and a network interface, whose
/// message type is Discover or Request and whose class identifier begins
/// with `PXEClient`, is one; the same message as a boot reply, or
/// with any one of the five options taken away, is not.
pub proof fn lemma_request_needs_each_condition(request: RequestView)
    requires
        request.opcode == Opcode::BootRequest,
        request.message_type matches Some(t) && (t == MessageType::Discover || t
            == MessageType::Request),
        request.parameter_request_list is Some,
        request.class_identifier matches Some(c) && is_pxe_class(c),
        request.architecture is Some,
        request.network_interface is Some,
    ensures
        request.is_pxe_request(),
        !(RequestView { opcode: Opcode::BootReply, ..request }).is_pxe_request(),
        !(RequestView { message_type: None, ..request }).is_pxe_request(),
        !(RequestView { parameter_request_list: None, ..request }).is_pxe_request(),
        !(RequestView { class_identifier: None, ..request }).is_pxe_request(),
        !(RequestView { architecture: None, ..request }).is_pxe_request(),
        !(RequestView { network_interface: None, ..request }).is_pxe_request(),
{
}

/// A message whose type is neither Discover nor Request is not a PXE
/// request, whatever else it carries.
pub proof fn lemma_other_message_types_fail(request: RequestView)
    requires
        request.message_type matches Some(t) ==> t.spec_code() != 1 && t.spec_code() != 3,
    ensures
        !request.is_pxe_request(),
        request.classify() == ClassificationView::NotPxe,
{
}

/// A class identifier that does not begin with `PXEClient`, or that is not
/// text, keeps a message out, whatever else it carries.
pub proof fn lemma_other_classes_fail(request: RequestView)
    requires
        request.class_identifier matches Some(c) ==> !is_pxe_class(c),
    ensures
        !request.is_pxe_request(),
{
}

} // verus!
