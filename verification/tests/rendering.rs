use pxe_proxy::{Architecture, HexSlice, Ipv4Address, MessageType, Opcode};

#[test]
fn hex_slice_joins_bytes_with_colons() {
    assert_eq!(HexSlice::new(&[0xde, 0xad, 0xbe, 0xef, 0x00, 0x01]).to_string(), "DE:AD:BE:EF:0:1");
    assert_eq!(HexSlice::new(&[0x0a, 0x10, 0xff, 0x9c]).to_string(), "A:10:FF:9C");
}

#[test]
fn hex_slice_of_one_byte_has_no_colon() {
    assert_eq!(HexSlice::new(&[0x00]).to_string(), "0");
    assert_eq!(HexSlice::new(&[0x0f]).to_string(), "F");
    assert_eq!(HexSlice::new(&[0x7b]).to_string(), "7B");
}

#[test]
fn hex_slice_of_nothing_is_empty() {
    assert_eq!(HexSlice::new(&[]).to_string(), "");
}

#[test]
fn hex_slice_agrees_with_upper_hex_formatting() {
    let bytes: Vec<u8> = (0u8..=255).collect();
    let expected: Vec<String> = bytes.iter().map(|b| format!("{:X}", b)).collect();
    assert_eq!(HexSlice::new(&bytes).to_string(), expected.join(":"));
    assert_eq!(HexSlice::new(&bytes).0, &bytes[..]);
}

#[test]
fn dotted_decimal_text() {
    assert_eq!(Ipv4Address::new(10, 0, 0, 5).dotted_decimal(), b"10.0.0.5".to_vec());
    assert_eq!(Ipv4Address::new(0, 0, 0, 0).dotted_decimal(), b"0.0.0.0".to_vec());
    assert_eq!(Ipv4Address::new(255, 255, 255, 255).dotted_decimal(), b"255.255.255.255".to_vec());
    assert_eq!(Ipv4Address::new(192, 168, 100, 9).dotted_decimal(), b"192.168.100.9".to_vec());
    assert_eq!(Ipv4Address::new(1, 20, 109, 200).dotted_decimal(), b"1.20.109.200".to_vec());
    assert_eq!(Ipv4Address::new(99, 100, 101, 10).dotted_decimal(), b"99.100.101.10".to_vec());
}

#[test]
fn dotted_decimal_of_every_octet() {
    for n in 0u8..=255 {
        let text = Ipv4Address::new(n, 0, n, 7).dotted_decimal();
        assert_eq!(text, format!("{}.0.{}.7", n, n).into_bytes());
    }
}

#[test]
fn unspecified_address_is_all_zero() {
    assert_eq!(Ipv4Address::unspecified(), Ipv4Address::new(0, 0, 0, 0));
    assert_eq!(Ipv4Address::new(10, 0, 0, 5).octets(), [10, 0, 0, 5]);
    assert_eq!(Ipv4Address::new(1, 2, 3, 4), Ipv4Address { a: 1, b: 2, c: 3, d: 4 });
}

#[test]
fn opcode_numbers() {
    assert_eq!(Opcode::BootRequest.code(), 1);
    assert_eq!(Opcode::BootReply.code(), 2);
    assert_eq!(Opcode::Unknown(9).code(), 9);
    assert_eq!(Opcode::from_code(1), Opcode::BootRequest);
    assert_eq!(Opcode::from_code(2), Opcode::BootReply);
    assert_eq!(Opcode::from_code(0), Opcode::Unknown(0));
    for n in 0u8..=255 {
        assert_eq!(Opcode::from_code(n).code(), n);
    }
}

#[test]
fn message_type_numbers() {
    assert_eq!(MessageType::Discover.code(), 1);
    assert_eq!(MessageType::Offer.code(), 2);
    assert_eq!(MessageType::Request.code(), 3);
    assert_eq!(MessageType::Decline.code(), 4);
    assert_eq!(MessageType::Ack.code(), 5);
    assert_eq!(MessageType::Nak.code(), 6);
    assert_eq!(MessageType::Release.code(), 7);
    assert_eq!(MessageType::Inform.code(), 8);
    assert_eq!(MessageType::from_code(5), MessageType::Ack);
    assert_eq!(MessageType::from_code(7), MessageType::Release);
    assert_eq!(MessageType::from_code(9), MessageType::Unknown(9));
    for n in 0u8..=255 {
        assert_eq!(MessageType::from_code(n).code(), n);
        assert_eq!(MessageType::from_code(n).starts_boot(), n == 1 || n == 3);
    }
}

#[test]
fn architecture_numbers() {
    assert_eq!(Architecture::Intelx86PC.code(), 0);
    assert_eq!(Architecture::NECPC98.code(), 1);
    assert_eq!(Architecture::Itanium.code(), 2);
    assert_eq!(Architecture::DECAlpha.code(), 3);
    assert_eq!(Architecture::Arcx86.code(), 4);
    assert_eq!(Architecture::IntelLeanClient.code(), 5);
    assert_eq!(Architecture::IA32.code(), 6);
    assert_eq!(Architecture::BC.code(), 7);
    assert_eq!(Architecture::Xscale.code(), 8);
    assert_eq!(Architecture::X86_64.code(), 9);
    assert_eq!(Architecture::Unknown(0x10).code(), 0x10);
    assert_eq!(Architecture::from_code(7), Architecture::BC);
    assert_eq!(Architecture::from_code(0), Architecture::Intelx86PC);
    assert_eq!(Architecture::from_code(11), Architecture::Unknown(11));
    for n in [0u16, 1, 5, 9, 10, 255, 256, 65535] {
        assert_eq!(Architecture::from_code(n).code(), n);
    }
}
