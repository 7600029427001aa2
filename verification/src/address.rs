//! IPv4 addresses and their dotted-decimal text.

use vstd::prelude::*;

verus! {

/// An IPv4 address, most significant octet first.
#[derive(Clone, Copy, Debug, PartialEq, Eq, Structural)]
pub struct Ipv4Address {
    pub a: u8,
    pub b: u8,
    pub c: u8,
    pub d: u8,
}

/// The ASCII digit for `n`, where `n` is below ten.
pub open spec fn digit(n: int) -> u8 {
    (48 + n) as u8
}

/// The decimal text of one octet, without leading zeros.
pub open spec fn decimal(n: u8) -> Seq<u8> {
    if n < 10 {
        seq![digit(n as int)]
    } else if n < 100 {
        seq![digit(n as int / 10), digit(n as int % 10)]
    } else {
        seq![digit(n as int / 100), digit((n as int / 10) % 10), digit(n as int % 10)]
    }
}

/// Appends the decimal text of `n` to `out`.
fn push_decimal(out: &mut Vec<u8>, n: u8)
    ensures
        final(out)@ == old(out)@ + decimal(n),
{
    if n >= 100 {
        out.push(48 + n / 100);
    }
    if n >= 10 {
        out.push(48 + (n / 10) % 10);
    }
    out.push(48 + n % 10);
}

impl Ipv4Address {
    /// The address `a.b.c.d`.
    pub fn new(a: u8, b: u8, c: u8, d: u8) -> (address: Ipv4Address)
        ensures
            address == (Ipv4Address { a, b, c, d }),
    {
        Ipv4Address { a, b, c, d }
    }

    /// The address `0.0.0.0`, which names no host.
    pub open spec fn spec_unspecified() -> Ipv4Address {
        Ipv4Address { a: 0, b: 0, c: 0, d: 0 }
    }

    /// The address `0.0.0.0`, which names no host.
    #[verifier::when_used_as_spec(spec_unspecified)]
    pub fn unspecified() -> (address: Ipv4Address)
        ensures
            address == Ipv4Address::spec_unspecified(),
    {
        Ipv4Address { a: 0, b: 0, c: 0, d: 0 }
    }

    /// The four octets in network order.
    pub open spec fn spec_octets(self) -> Seq<u8> {
        seq![self.a, self.b, self.c, self.d]
    }

    /// The four octets in network order.
    pub fn octets(self) -> (octets: [u8; 4])
        ensures
            octets@ == self.spec_octets(),
    {
        [self.a, self.b, self.c, self.d]
    }

    /// The address as dotted-decimal ASCII text: four decimal octets joined
    /// by full stops.
    pub open spec fn spec_dotted_decimal(self) -> Seq<u8> {
        decimal(self.a) + seq![46u8] + decimal(self.b) + seq![46u8] + decimal(self.c) + seq![46u8]
            + decimal(self.d)
    }

    /// The address as dotted-decimal ASCII text, such as `10.0.0.5`.
    pub fn dotted_decimal(self) -> (text: Vec<u8>)
        ensures
            text@ == self.spec_dotted_decimal(),
            7 <= text@.len() <= 15,
    {
        let mut text: Vec<u8> = Vec::new();
        push_decimal(&mut text, self.a);
        text.push(46);
        push_decimal(&mut text, self.b);
        text.push(46);
        push_decimal(&mut text, self.c);
        text.push(46);
        push_decimal(&mut text, self.d);
        text
    }
}

/// Dotted-decimal text is at least seven and at most fifteen bytes long.
pub proof fn lemma_dotted_decimal_length(address: Ipv4Address)
    ensures
        7 <= address.spec_dotted_decimal().len() <= 15,
{
}

} // verus!
