//! Address derivation: a pure mapping from an endpoint name and a
//! communication mode to the address a process listens on.
use vstd::prelude::*;
use vstd::string::StringSliceAdditionalSpecFns;
use crate::entities::CommunicationMode;

verus! {

/// The polynomial hash of a byte string: `acc = acc * 31 + byte` from zero,
/// in 32-bit wrapping arithmetic.
pub open spec fn name_hash(bytes: Seq<u8>) -> u32
    decreases bytes.len(),
{
    if bytes.len() == 0 {
        0
    } else {
        ((name_hash(bytes.drop_last()) as int * 31 + bytes.last() as int) % 0x1_0000_0000) as u32
    }
}

/// The loopback port of an endpoint: 9000 plus the hash of its UTF-8 bytes
/// modulo 1000.
pub open spec fn http_port(name: Seq<char>) -> u16 {
    (9000 + name_hash(vstd::utf8::encode_utf8(name)) % 1000) as u16
}

/// A decimal digit.
pub open spec fn digit_char(d: nat) -> char {
    (('0' as u8) + (d % 10) as u8) as char
}

/// The decimal text of a number: no sign, no leading zeros.
pub open spec fn decimal(n: nat) -> Seq<char>
    decreases n,
{
    if n < 10 {
        seq![digit_char(n)]
    } else {
        decimal(n / 10).push(digit_char(n % 10))
    }
}

/// The loopback HTTP address of an endpoint, `127.0.0.1:<port>`.
pub open spec fn http_address(name: Seq<char>) -> Seq<char> {
    "127.0.0.1:"@ + decimal(http_port(name) as nat)
}

/// The local socket path of an endpoint, under `/tmp`.
pub open spec fn pipe_address(name: Seq<char>) -> Seq<char> {
    "/tmp/"@ + name
}

/// The address of an endpoint in a communication mode.
pub open spec fn address_for(name: Seq<char>, mode: CommunicationMode) -> Seq<char> {
    match mode {
        CommunicationMode::Pipe => pipe_address(name),
        CommunicationMode::Http => http_address(name),
    }
}

/// Relies on `u16`'s `Display` (through `to_string`), which writes a number
/// in decimal without sign or leading zeros.
#[verifier::external_body]
fn decimal_text(n: u16) -> (r: String)
    ensures
        r@ == decimal(n as nat),
{
    n.to_string()
}

/// The deterministic loopback port for an endpoint name, in 9000..=9999.
pub fn get_http_port_from_name(pipe_name: &str) -> (r: u16)
    ensures
        r == http_port(pipe_name@),
        9000 <= r < 10000,
{
    let bytes = pipe_name.as_bytes();
    let mut acc: u32 = 0;
    let mut i: usize = 0;
    while i < bytes.len()
        invariant
            bytes@ == pipe_name.spec_bytes(),
            i <= bytes@.len(),
            acc == name_hash(bytes@.subrange(0, i as int)),
        decreases bytes@.len() - i,
    {
        let b = bytes[i];
        proof {
            let next = bytes@.subrange(0, i + 1);
            assert(next.drop_last() =~= bytes@.subrange(0, i as int));
            assert(next.last() == b);
        }
        acc = acc.wrapping_mul(31).wrapping_add(b as u32);
        i = i + 1;
    }
    assert(bytes@.subrange(0, bytes@.len() as int) =~= bytes@);
    9000 + (acc % 1000) as u16
}

/// The loopback HTTP address for an endpoint name.
pub fn get_http_address_from_name(pipe_name: &str) -> (r: String)
    ensures
        r@ == http_address(pipe_name@),
{
    let port = get_http_port_from_name(pipe_name);
    let digits = decimal_text(port);
    String::from_str("127.0.0.1:").concat(digits.as_str())
}

/// The local socket path for an endpoint name.
pub fn get_pipe_address_from_name(pipe_name: &str) -> (r: String)
    ensures
        r@ == pipe_address(pipe_name@),
{
    String::from_str("/tmp/").concat(pipe_name)
}

/// The address for an endpoint name in a communication mode.
pub fn derive_address(pipe_name: &str, mode: CommunicationMode) -> (r: String)
    ensures
        r@ == address_for(pipe_name@, mode),
{
    match mode {
        CommunicationMode::Pipe => get_pipe_address_from_name(pipe_name),
        CommunicationMode::Http => get_http_address_from_name(pipe_name),
    }
}

/// Address derivation is a function of its inputs: the same endpoint name and
/// mode always give the same address.
pub proof fn lemma_address_deterministic(
    name1: Seq<char>,
    mode1: CommunicationMode,
    name2: Seq<char>,
    mode2: CommunicationMode,
)
    requires
        name1 == name2,
        mode1 == mode2,
    ensures
        address_for(name1, mode1) == address_for(name2, mode2),
        http_port(name1) == http_port(name2),
{
}

} // verus!
