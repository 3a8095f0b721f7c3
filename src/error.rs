use vstd::prelude::*;

verus! {

/// `std::io::Error` carried through unchanged: nothing in this crate looks inside it.
#[verifier::external_type_specification]
#[verifier::external_body]
pub struct ExIoError(std::io::Error);

/// The two ways a client call can fail.
#[derive(Debug)]
pub enum StatsdError {
    /// The operating system refused to bind, connect or send.
    IoError(std::io::Error),
    /// The endpoint given at construction is not a network address.
    AddrParseError(String),
}

/// The result of a client call.
pub type StatsdResult<T> = Result<T, StatsdError>;

impl StatsdError {
    /// The message an address-parse failure carries.
    pub open spec fn address_parse_message() -> Seq<char> {
        "Address parsing error"@
    }

    /// The error for an endpoint that does not parse as a network address.
    pub fn address_parse() -> (r: StatsdError)
        ensures
            r matches StatsdError::AddrParseError(m) && m@ == Self::address_parse_message(),
    {
        StatsdError::AddrParseError(String::from_str("Address parsing error"))
    }

    /// Whether this is a failure of the operating system's network stack.
    pub fn is_io(&self) -> (r: bool)
        ensures
            r == (self is IoError),
    {
        match self {
            StatsdError::IoError(_) => true,
            StatsdError::AddrParseError(_) => false,
        }
    }

    /// Whether this is a malformed endpoint.
    pub fn is_address_parse(&self) -> (r: bool)
        ensures
            r == (self is AddrParseError),
    {
        match self {
            StatsdError::IoError(_) => false,
            StatsdError::AddrParseError(_) => true,
        }
    }
}

impl From<std::io::Error> for StatsdError {
    fn from(err: std::io::Error) -> (r: StatsdError)
        ensures
            r == StatsdError::IoError(err),
    {
        StatsdError::IoError(err)
    }
}

impl vstd::std_specs::convert::FromSpecImpl<std::io::Error> for StatsdError {
    open spec fn obeys_from_spec() -> bool {
        true
    }

    open spec fn from_spec(err: std::io::Error) -> StatsdError {
        StatsdError::IoError(err)
    }
}

} // verus!
