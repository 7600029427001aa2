//! The DHCP vocabulary the proxy speaks: option codes, operation codes,
//! message types and client architectures, each with its wire number.

use vstd::prelude::*;

verus! {

/// Option code of the DHCP message type option.
pub const OPTION_MESSAGE_TYPE: u8 = 53;

/// Option code of the parameter request list option.
pub const OPTION_PARAMETER_REQUEST_LIST: u8 = 55;

/// Option code of the class identifier option.
pub const OPTION_CLASS_IDENTIFIER: u8 = 60;

/// Option code of the user class option.
pub const OPTION_USER_CLASS: u8 = 77;

/// Option code of the client system architecture option.
pub const OPTION_CLIENT_SYSTEM_ARCHITECTURE: u8 = 93;

/// Option code of the client network interface option.
pub const OPTION_CLIENT_NETWORK_INTERFACE: u8 = 94;

/// The operation field of a message: who is speaking.
#[derive(Clone, Copy, Debug, PartialEq, Eq, Structural)]
pub enum Opcode {
    /// A client asks.
    BootRequest,
    /// A server answers.
    BootReply,
    /// Any other value of the field.
    Unknown(u8),
}

impl Opcode {
    /// The wire number of this operation.
    pub open spec fn spec_code(self) -> u8 {
        match self {
            Opcode::BootRequest => 1,
            Opcode::BootReply => 2,
            Opcode::Unknown(n) => n,
        }
    }

    /// The operation a wire number stands for.
    pub open spec fn spec_from_code(code: u8) -> Opcode {
        if code == 1 {
            Opcode::BootRequest
        } else if code == 2 {
            Opcode::BootReply
        } else {
            Opcode::Unknown(code)
        }
    }

    /// The wire number of this operation.
    #[verifier::when_used_as_spec(spec_code)]
    pub fn code(self) -> (code: u8)
        ensures
            code == self.spec_code(),
    {
        match self {
            Opcode::BootRequest => 1,
            Opcode::BootReply => 2,
            Opcode::Unknown(n) => n,
        }
    }

    /// The operation a wire number stands for.
    #[verifier::when_used_as_spec(spec_from_code)]
    pub fn from_code(code: u8) -> (opcode: Opcode)
        ensures
            opcode == Opcode::spec_from_code(code),
            opcode.spec_code() == code,
    {
        if code == 1 {
            Opcode::BootRequest
        } else if code == 2 {
            Opcode::BootReply
        } else {
            Opcode::Unknown(code)
        }
    }
}

/// The DHCP message type carried in option 53.
#[derive(Clone, Copy, Debug, PartialEq, Eq, Structural)]
pub enum MessageType {
    Discover,
    Offer,
    Request,
    Decline,
    Ack,
    Nak,
    Release,
    Inform,
    /// Any other value of the option.
    Unknown(u8),
}

impl MessageType {
    /// The wire number of this message type.
    pub open spec fn spec_code(self) -> u8 {
        match self {
            MessageType::Discover => 1,
            MessageType::Offer => 2,
            MessageType::Request => 3,
            MessageType::Decline => 4,
            MessageType::Ack => 5,
            MessageType::Nak => 6,
            MessageType::Release => 7,
            MessageType::Inform => 8,
            MessageType::Unknown(n) => n,
        }
    }

    /// The message type a wire number stands for.
    pub open spec fn spec_from_code(code: u8) -> MessageType {
        if code == 1 {
            MessageType::Discover
        } else if code == 2 {
            MessageType::Offer
        } else if code == 3 {
            MessageType::Request
        } else if code == 4 {
            MessageType::Decline
        } else if code == 5 {
            MessageType::Ack
        } else if code == 6 {
            MessageType::Nak
        } else if code == 7 {
            MessageType::Release
        } else if code == 8 {
            MessageType::Inform
        } else {
            MessageType::Unknown(code)
        }
    }

    /// Whether a client opens or continues an address negotiation with this
    /// message: the two types a PXE boot request may carry.
    pub open spec fn spec_starts_boot(self) -> bool {
        self.spec_code() == 1 || self.spec_code() == 3
    }

    /// The wire number of this message type.
    #[verifier::when_used_as_spec(spec_code)]
    pub fn code(self) -> (code: u8)
        ensures
            code == self.spec_code(),
    {
        match self {
            MessageType::Discover => 1,
            MessageType::Offer => 2,
            MessageType::Request => 3,
            MessageType::Decline => 4,
            MessageType::Ack => 5,
            MessageType::Nak => 6,
            MessageType::Release => 7,
            MessageType::Inform => 8,
            MessageType::Unknown(n) => n,
        }
    }

    /// The message type a wire number stands for.
    #[verifier::when_used_as_spec(spec_from_code)]
    pub fn from_code(code: u8) -> (message_type: MessageType)
        ensures
            message_type == MessageType::spec_from_code(code),
            message_type.spec_code() == code,
    {
        if code == 1 {
            MessageType::Discover
        } else if code == 2 {
            MessageType::Offer
        } else if code == 3 {
            MessageType::Request
        } else if code == 4 {
            MessageType::Decline
        } else if code == 5 {
            MessageType::Ack
        } else if code == 6 {
            MessageType::Nak
        } else if code == 7 {
            MessageType::Release
        } else if code == 8 {
            MessageType::Inform
        } else {
            MessageType::Unknown(code)
        }
    }

    /// Whether this is Discover or Request.
    #[verifier::when_used_as_spec(spec_starts_boot)]
    pub fn starts_boot(self) -> (yes: bool)
        ensures
            yes == self.spec_starts_boot(),
    {
        let code: u8 = self.code();
        code == 1 || code == 3
    }
}

/// The processor architecture a client reports in option 93.
///
/// Two values name the same architecture when their codes agree: a rule
/// written as `Unknown(7)` applies to a `BC` client.
#[allow(non_camel_case_types)]
#[derive(Clone, Copy, Debug, PartialEq, Eq, Structural)]
pub enum Architecture {
    /// Intel x86 PC with a legacy BIOS.
    Intelx86PC,
    /// NEC PC-98.
    NECPC98,
    /// EFI on Itanium.
    Itanium,
    /// DEC Alpha.
    DECAlpha,
    /// Arc x86.
    Arcx86,
    /// Intel Lean Client.
    IntelLeanClient,
    /// EFI on IA-32.
    IA32,
    /// EFI byte code.
    BC,
    /// EFI on XScale.
    Xscale,
    /// EFI on x86-64.
    X86_64,
    /// Any other code.
    Unknown(u16),
}

impl Architecture {
    /// The wire number of this architecture.
    pub open spec fn spec_code(self) -> u16 {
        match self {
            Architecture::Intelx86PC => 0,
            Architecture::NECPC98 => 1,
            Architecture::Itanium => 2,
            Architecture::DECAlpha => 3,
            Architecture::Arcx86 => 4,
            Architecture::IntelLeanClient => 5,
            Architecture::IA32 => 6,
            Architecture::BC => 7,
            Architecture::Xscale => 8,
            Architecture::X86_64 => 9,
            Architecture::Unknown(n) => n,
        }
    }

    /// The architecture a wire number stands for.
    pub open spec fn spec_from_code(code: u16) -> Architecture {
        if code == 0 {
            Architecture::Intelx86PC
        } else if code == 1 {
            Architecture::NECPC98
        } else if code == 2 {
            Architecture::Itanium
        } else if code == 3 {
            Architecture::DECAlpha
        } else if code == 4 {
            Architecture::Arcx86
        } else if code == 5 {
            Architecture::IntelLeanClient
        } else if code == 6 {
            Architecture::IA32
        } else if code == 7 {
            Architecture::BC
        } else if code == 8 {
            Architecture::Xscale
        } else if code == 9 {
            Architecture::X86_64
        } else {
            Architecture::Unknown(code)
        }
    }

    /// The wire number of this architecture.
    #[verifier::when_used_as_spec(spec_code)]
    pub fn code(self) -> (code: u16)
        ensures
            code == self.spec_code(),
    {
        match self {
            Architecture::Intelx86PC => 0,
            Architecture::NECPC98 => 1,
            Architecture::Itanium => 2,
            Architecture::DECAlpha => 3,
            Architecture::Arcx86 => 4,
            Architecture::IntelLeanClient => 5,
            Architecture::IA32 => 6,
            Architecture::BC => 7,
            Architecture::Xscale => 8,
            Architecture::X86_64 => 9,
            Architecture::Unknown(n) => n,
        }
    }

    /// The architecture a wire number stands for.
    #[verifier::when_used_as_spec(spec_from_code)]
    pub fn from_code(code: u16) -> (architecture: Architecture)
        ensures
            architecture == Architecture::spec_from_code(code),
            architecture.spec_code() == code,
    {
        if code == 0 {
            Architecture::Intelx86PC
        } else if code == 1 {
            Architecture::NECPC98
        } else if code == 2 {
            Architecture::Itanium
        } else if code == 3 {
            Architecture::DECAlpha
        } else if code == 4 {
            Architecture::Arcx86
        } else if code == 5 {
            Architecture::IntelLeanClient
        } else if code == 6 {
            Architecture::IA32
        } else if code == 7 {
            Architecture::BC
        } else if code == 8 {
            Architecture::Xscale
        } else if code == 9 {
            Architecture::X86_64
        } else {
            Architecture::Unknown(code)
        }
    }
}

} // verus!
