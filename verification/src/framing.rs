//! The option area of a datagram as a run of code, length and value
//! triples, and the check that the options of fixed size have the length
//! their codes call for.
//!
//! Consecutive options of one code are one option whose value is the values
//! joined. An option that runs past the end of the datagram ends the option
//! area: neither it nor anything behind it is looked at.

use vstd::prelude::*;

verus! {

/// Where the option area begins: behind the fixed header of 236 bytes and
/// the magic cookie of four.
pub const OPTIONS_OFFSET: usize = 240;

/// The code that pads the option area.
pub const OPTION_PAD: u8 = 0;

/// The code that ends the option area.
pub const OPTION_END: u8 = 255;

/// Whether a value of `length` bytes is well formed for the option `code`.
/// Rapid commit (80) is empty; a client FQDN (81) has at least its three
/// leading bytes; a client network interface (94) has exactly three bytes;
/// the four bulk lease query times (152 to 155) have exactly four.
pub open spec fn length_fits(code: u8, length: int) -> bool {
    &&& (code == 80 ==> length == 0)
    &&& (code == 81 ==> length >= 3)
    &&& (code == 94 ==> length == 3)
    &&& (152 <= code <= 155 ==> length == 4)
}

/// Whether the option that begins at `at` lies within `bytes`, code, length
/// and value.
pub open spec fn option_fits(bytes: Seq<u8>, at: int) -> bool {
    at + 1 < bytes.len() && at + 2 + bytes[at + 1] <= bytes.len()
}

/// Whether every option from `at` on has a length that fits its code.
pub open spec fn options_fit(bytes: Seq<u8>, at: int) -> bool
    decreases bytes.len() - at, 0int,
{
    if at < 0 || at >= bytes.len() || bytes[at] == OPTION_END {
        true
    } else if bytes[at] == OPTION_PAD {
        options_fit(bytes, at + 1)
    } else if !option_fits(bytes, at) {
        true
    } else {
        run_fits(bytes, bytes[at], at + 2 + bytes[at + 1], bytes[at + 1] as int)
    }
}

/// Whether the option of `code`, of which `length` bytes of value have been
/// read up to `at`, and every option behind it have lengths that fit.
pub open spec fn run_fits(bytes: Seq<u8>, code: u8, at: int, length: int) -> bool
    decreases bytes.len() - at, 1int,
{
    if 0 <= at < bytes.len() && bytes[at] == code {
        if !option_fits(bytes, at) {
            true
        } else {
            run_fits(bytes, code, at + 2 + bytes[at + 1], length + bytes[at + 1])
        }
    } else {
        length_fits(code, length) && options_fit(bytes, at)
    }
}

/// Whether the options of a datagram have lengths that fit their codes. A
/// datagram too short to hold an option area has no option to object to.
pub open spec fn option_lengths_fit(datagram: Seq<u8>) -> bool {
    options_fit(datagram, OPTIONS_OFFSET as int)
}

/// Whether a value of `length` bytes is well formed for the option `code`.
pub fn check_length(code: u8, length: usize) -> (fits: bool)
    ensures
        fits == length_fits(code, length as int),
{
    if code == 80 {
        length == 0
    } else if code == 81 {
        length >= 3
    } else if code == 94 {
        length == 3
    } else if 152 <= code && code <= 155 {
        length == 4
    } else {
        true
    }
}

/// Whether the option that begins at `at` lies within `bytes`.
fn check_option_fits(bytes: &[u8], at: usize) -> (fits: bool)
    requires
        at < bytes.len(),
    ensures
        fits == option_fits(bytes@, at as int),
{
    let left: usize = bytes.len() - at;
    if left < 2 {
        false
    } else {
        let length: usize = bytes[at + 1] as usize;
        length <= left - 2
    }
}

/// Checks that the options of a datagram have lengths that fit their codes.
pub fn check_option_lengths(datagram: &[u8]) -> (fit: bool)
    ensures
        fit == option_lengths_fit(datagram@),
{
    let n: usize = datagram.len();
    let mut at: usize = OPTIONS_OFFSET;
    while at < n
        invariant
            n == datagram.len(),
            OPTIONS_OFFSET <= at,
            option_lengths_fit(datagram@) == options_fit(datagram@, at as int),
        decreases n - at,
    {
        let code: u8 = datagram[at];
        if code == OPTION_END {
            return true;
        }
        if code == OPTION_PAD {
            at = at + 1;
        } else {
            if !check_option_fits(datagram, at) {
                return true;
            }
            let ghost start = at;
            let mut length: usize = datagram[at + 1] as usize;
            at = at + 2 + length;
            while at < n && datagram[at] == code
                invariant
                    n == datagram.len(),
                    OPTIONS_OFFSET <= start < at <= n,
                    length <= at,
                    code != OPTION_END,
                    code != OPTION_PAD,
                    option_lengths_fit(datagram@) == run_fits(
                        datagram@,
                        code,
                        at as int,
                        length as int,
                    ),
                decreases n - at,
            {
                if !check_option_fits(datagram, at) {
                    return true;
                }
                let more: usize = datagram[at + 1] as usize;
                length = length + more;
                at = at + 2 + more;
            }
            if !check_length(code, length) {
                return false;
            }
        }
    }
    true
}

} // verus!
