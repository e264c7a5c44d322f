//! The ways in which a connection handled by the proxy can fail.

use vstd::prelude::*;

verus! {

/// The error of an I/O operation of the standard library, carried through
/// unread.
#[verifier::external_type_specification]
#[verifier::external_body]
pub struct ExIoError(std::io::Error);

/// The error that `String::from_utf8` returns for bytes that are not UTF-8,
/// carried through unread.
#[verifier::external_type_specification]
#[verifier::external_body]
pub struct ExFromUtf8Error(std::string::FromUtf8Error);

/// Why a connection ended without success.
#[derive(Debug)]
pub enum Error {
    /// A transport operation on either socket failed.
    StdError(std::io::Error),
    /// The domain name in a SOCKS5 request is not UTF-8.
    FromUtf8Error(std::string::FromUtf8Error),
    /// The client's greeting names a protocol version other than 5.
    UnsupportedSocksVersion(u8),
    /// The client offers no authentication method that the proxy accepts.
    UnsupportedSocksMethod,
    /// The request names an address type other than IPv4, domain or IPv6.
    UnsupportedSocksAddressType(u8),
    /// Name resolution yielded no address for the target.
    InvalidDomainName(String),
    /// An egress address was needed from a pool that holds no subnet.
    EmptyPool,
}

} // verus!
