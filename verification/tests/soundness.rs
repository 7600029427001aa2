use pxe_proxy::framing::check_option_lengths;
use pxe_proxy::wire::{decode, DecodeFailure};
use pxe_proxy::{Action, DHCPProxy};

struct Source(u64);

impl Source {
    fn next(&mut self) -> u32 {
        self.0 = self.0.wrapping_mul(6364136223846793005).wrapping_add(1442695040888963407);
        (self.0 >> 33) as u32
    }

    fn below(&mut self, bound: u32) -> u32 {
        self.next() % bound
    }
}

const CODES: [u8; 24] = [
    0, 255, 1, 3, 12, 53, 55, 60, 77, 80, 81, 82, 88, 93, 94, 119, 121, 151, 152, 153, 154, 155,
    156, 157,
];

fn option_area(source: &mut Source) -> Vec<u8> {
    let mut area = Vec::new();
    let pieces = source.below(8);
    for _ in 0..pieces {
        let code = CODES[source.below(CODES.len() as u32) as usize];
        area.push(code);
        if code == 0 || code == 255 {
            continue;
        }
        let stated = source.below(7) as u8;
        area.push(stated);
        let given = if source.below(6) == 0 { source.below(7) as u8 } else { stated };
        for _ in 0..given {
            area.push(source.below(4) as u8);
        }
        if source.below(3) == 0 {
            area.push(code);
            let more = source.below(4) as u8;
            area.push(more);
            for _ in 0..more {
                area.push(source.below(256) as u8);
            }
        }
    }
    area
}

fn datagram_with(area: &[u8], hlen: u8) -> Vec<u8> {
    let mut bytes = vec![1, 1, hlen, 0];
    bytes.resize(236, 0);
    bytes.extend_from_slice(&[99, 130, 83, 99]);
    bytes.extend_from_slice(area);
    bytes
}

#[test]
fn decoding_never_fails_but_by_an_error() {
    let mut source = Source(0x5eed);
    let proxy = DHCPProxy::new(Vec::new());
    let mut refused = 0;
    let mut read = 0;
    for _ in 0..20000 {
        let area = option_area(&mut source);
        let datagram = datagram_with(&area, (source.below(18)) as u8);
        let fits = check_option_lengths(&datagram);
        let outcome = decode(&datagram);
        assert_eq!(outcome == Err(DecodeFailure::OptionLength), !fits, "{:?}", area);
        match outcome {
            Err(DecodeFailure::OptionLength) => refused += 1,
            Err(DecodeFailure::HardwareAddress) => assert!(datagram[2] > 16),
            Err(DecodeFailure::Malformed) => panic!("a whole header does not decode: {:?}", area),
            Ok(request) => {
                read += 1;
                assert_eq!(request.chaddr.len(), datagram[2] as usize);
            }
        }
        assert!(!matches!(proxy.react(&datagram), Action::Fail(_)));
    }
    assert!(refused > 500);
    assert!(read > 5000);
}

#[test]
fn decoding_arbitrary_bytes_never_fails_but_by_an_error() {
    let mut source = Source(7);
    for _ in 0..5000 {
        let length = source.below(400) as usize;
        let mut datagram = Vec::with_capacity(length);
        for _ in 0..length {
            let byte = if source.below(4) == 0 {
                CODES[source.below(CODES.len() as u32) as usize]
            } else {
                source.below(6) as u8
            };
            datagram.push(byte);
        }
        let outcome = decode(&datagram);
        if length < 240 {
            assert_eq!(outcome, Err(DecodeFailure::Malformed));
        } else {
            assert_ne!(outcome, Err(DecodeFailure::Malformed));
        }
    }
}
