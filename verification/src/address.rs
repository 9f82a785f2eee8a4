//! Addresses on which the node listens, and which it dials.

use libp2p::multiaddr;
use vstd::prelude::*;

use crate::calls::call_on;
use crate::outside::parse_multiaddr;

verus! {

/// A network address: the binary form of a multiaddr.
#[derive(Debug, PartialEq, Eq)]
pub struct Address {
    /// The binary form.
    pub bytes: Vec<u8>,
}

impl View for Address {
    type V = Seq<u8>;

    open spec fn view(&self) -> Seq<u8> {
        self.bytes@
    }
}

/// Why an address cannot be used.
#[derive(Debug)]
pub enum AddressError {
    /// The text is no multiaddr, for the reason given.
    Invalid(multiaddr::Error),
}

/// `number` in decimal notation, without leading zeros.
pub open spec fn decimal(number: nat) -> Seq<char>
    decreases number,
{
    let digit = "0123456789"@[(number % 10) as int];
    if number < 10 {
        seq![digit]
    } else {
        decimal(number / 10).push(digit)
    }
}

/// The text of the address for `port` on all interfaces.
pub open spec fn listen_text(port: u16) -> Seq<char> {
    "/ip4/0.0.0.0/tcp/"@ + decimal(port as nat)
}

/// The binary form of the address for `port` on all interfaces.
pub open spec fn listen_bytes(port: u16) -> Seq<u8> {
    seq![4u8, 0u8, 0u8, 0u8, 0u8, 6u8, (port / 256) as u8, (port % 256) as u8]
}

/// Appends `number` in decimal notation to `text`.
fn append_decimal(text: &mut String, number: u16)
    ensures
        final(text)@ == old(text)@ + decimal(number as nat),
    decreases number,
{
    proof {
        reveal_strlit("0123456789");
    }
    let ghost before = text@;
    if number >= 10 {
        append_decimal(text, number / 10);
    }
    let digit: usize = (number % 10) as usize;
    text.append("0123456789".substring_ascii(digit, digit + 1));
    assert(text@ =~= before + decimal(number as nat));
}

/// The text of the address for `port` on all interfaces.
pub fn listen_address_text(port: u16) -> (text: String)
    ensures
        text@ == listen_text(port),
{
    let mut text = String::from_str("/ip4/0.0.0.0/tcp/");
    append_decimal(&mut text, port);
    text
}

/// The address that a text was found to denote, or why it denotes none.
pub fn address_of(parsed: Result<Vec<u8>, multiaddr::Error>) -> (address: Result<
    Address,
    AddressError,
>)
    ensures
        match parsed {
            Ok(bytes) => address == Ok::<Address, AddressError>(Address { bytes }),
            Err(reason) => address == Err::<Address, AddressError>(AddressError::Invalid(reason)),
        },
{
    match parsed {
        Ok(bytes) => Ok(Address { bytes }),
        Err(reason) => Err(AddressError::Invalid(reason)),
    }
}

/// Whether `reason` is why parsing `text` as a multiaddr fails. Only the parse shows this of a
/// reason.
pub closed spec fn refused(text: &str, reason: multiaddr::Error) -> bool {
    call_ensures(parse_multiaddr, (text,), Err(reason))
}

/// A reason for refusing a text is one that the parse gives for that text, and only what is no
/// multiaddr is refused.
pub(crate) proof fn law_reasons_come_from_the_parse(text: &str, reason: multiaddr::Error)
    ensures
        refused(text, reason) == call_ensures(parse_multiaddr, (text,), Err(reason)),
        refused(text, reason) ==> crate::outside::parsed_multiaddr(text@) is None,
{
}

/// The address that `text` denotes. It is an error if `text` is no multiaddr.
pub fn parse_address(text: &str) -> (address: Result<Address, AddressError>)
    ensures
        match address {
            Ok(address) => crate::outside::parsed_multiaddr(text@) == Some(address@),
            Err(AddressError::Invalid(reason)) => {
                &&& crate::outside::parsed_multiaddr(text@) is None
                &&& refused(text, reason)
            },
        },
        forall|port: u16|
            text@ == #[trigger] listen_text(port) ==> address is Ok && address->Ok_0@
                == listen_bytes(port),
{
    address_of(call_on(parse_multiaddr, text))
}

/// The address for `port` on all interfaces.
pub fn listen_address(port: u16) -> (address: Result<Address, AddressError>)
    ensures
        address matches Ok(address) && address@ == listen_bytes(port),
{
    parse_address(listen_address_text(port).as_str())
}

} // verus!
