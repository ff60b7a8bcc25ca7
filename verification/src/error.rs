use vstd::prelude::*;

use crate::address::{ip_text, socket_addr_text, IpAddr, SocketAddr};

verus! {

#[verifier::external_type_specification]
#[verifier::external_body]
pub struct ExIoError(std::io::Error);

/// Errors of multicast socket construction and membership changes.
#[derive(Debug)]
pub enum MulticastError {
    InvalidGroupAddress(IpAddr),
    UnsupportedOption(&'static str),
    BindAddressRequired,
    NoMembershipsConfigured,
    BindFailed { addr: SocketAddr, source: std::io::Error },
    Io(std::io::Error),
}

/// Results whose error is a [`MulticastError`].
pub type Result<T> = core::result::Result<T, MulticastError>;

/// The text of an I/O error (`std::io::Error`'s `Display`). Its content is
/// the operating system's or the error's own message; no clause states it.
#[verifier::external_body]
pub(crate) fn io_error_text(e: &std::io::Error) -> String {
    e.to_string()
}

impl MulticastError {
    /// The message of the error. The part that comes from an I/O error is its
    /// own text.
    pub fn message(&self) -> (r: String)
        ensures
            match self {
                MulticastError::InvalidGroupAddress(addr) =>
                    r@ == "invalid multicast group address: "@ + ip_text(*addr),
                MulticastError::UnsupportedOption(option) =>
                    r@ == "unsupported multicast option: "@ + option@,
                MulticastError::BindAddressRequired => r@ == "bind address is required"@,
                MulticastError::NoMembershipsConfigured =>
                    r@ == "at least one multicast membership is required"@,
                MulticastError::BindFailed { addr, .. } => exists|t: Seq<char>|
                    r@ == "failed to bind "@ + socket_addr_text(*addr) + ": "@ + t,
                MulticastError::Io(_) => true,
            },
    {
        let mut s = String::new();
        match self {
            MulticastError::InvalidGroupAddress(addr) => {
                s.append("invalid multicast group address: ");
                let t = addr.to_text();
                s.append(t.as_str());
            },
            MulticastError::UnsupportedOption(option) => {
                s.append("unsupported multicast option: ");
                s.append(option);
            },
            MulticastError::BindAddressRequired => {
                s.append("bind address is required");
            },
            MulticastError::NoMembershipsConfigured => {
                s.append("at least one multicast membership is required");
            },
            MulticastError::BindFailed { addr, source } => {
                s.append("failed to bind ");
                addr.push_text(&mut s);
                s.append(": ");
                let t = io_error_text(source);
                s.append(t.as_str());
                assert(s@ =~= "failed to bind "@ + socket_addr_text(*addr) + ": "@ + t@);
            },
            MulticastError::Io(source) => {
                s = io_error_text(source);
            },
        }
        s
    }

    /// The I/O error that caused this error, if any.
    pub fn io_source(&self) -> (r: Option<&std::io::Error>)
        ensures
            match self {
                MulticastError::BindFailed { source, .. } => r == Some(source),
                MulticastError::Io(source) => r == Some(source),
                _ => r is None,
            },
    {
        match self {
            MulticastError::BindFailed { source, .. } => Some(source),
            MulticastError::Io(source) => Some(source),
            _ => None,
        }
    }
}

impl From<std::io::Error> for MulticastError {
    fn from(value: std::io::Error) -> (r: Self) {
        MulticastError::Io(value)
    }
}

impl vstd::std_specs::convert::FromSpecImpl<std::io::Error> for MulticastError {
    open spec fn obeys_from_spec() -> bool {
        true
    }

    open spec fn from_spec(v: std::io::Error) -> MulticastError {
        MulticastError::Io(v)
    }
}

} // verus!
