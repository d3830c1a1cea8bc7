//! Errors reported by algorithms and by the loader.
use vstd::prelude::*;

verus! {

/// What went wrong; the kind drives the host's branching, the message is for operators.
#[derive(Clone, Copy, Debug, PartialEq, Eq, Structural)]
pub enum ErrorKind {
    BrokerConnectionFailed,
    CouldNotLogin,
    CouldNotBuy,
    CouldNotSell,
    IO,
    LibLoading,
    MisMatchedVersion,
    NoNewPositions,
    Other,
    Panic,
    TimeOut,
}

/// An error carrying its kind and a message.
#[derive(Clone, Debug)]
pub struct Error {
    msg: String,
    kind: ErrorKind,
}

impl Error {
    /// The message of this error.
    pub closed spec fn spec_msg(&self) -> Seq<char> {
        self.msg@
    }

    /// The kind of this error.
    pub closed spec fn spec_kind(&self) -> ErrorKind {
        self.kind
    }

    pub fn new(msg: String, kind: ErrorKind) -> (r: Self)
        ensures
            r.spec_msg() == msg@,
            r.spec_kind() == kind,
    {
        Self { msg, kind }
    }

    pub fn msg(&self) -> (r: &str)
        ensures
            r@ == self.spec_msg(),
    {
        self.msg.as_str()
    }

    pub fn kind(&self) -> (r: ErrorKind)
        ensures
            r == self.spec_kind(),
    {
        self.kind
    }

    /// The text an operator reads: `Error(<kind>): <message>`.
    pub fn describe(&self) -> (r: String)
        ensures
            r@ == "Error("@ + self.spec_kind().spec_name() + "): "@ + self.spec_msg(),
    {
        let mut r = String::from_str("Error(");
        r.append(self.kind.name());
        r.append("): ");
        r.append(self.msg.as_str());
        r
    }
}

impl ErrorKind {
    pub open spec fn spec_name(&self) -> Seq<char> {
        match *self {
            ErrorKind::BrokerConnectionFailed => "BrokerConnectionFailed"@,
            ErrorKind::CouldNotLogin => "CouldNotLogin"@,
            ErrorKind::CouldNotBuy => "CouldNotBuy"@,
            ErrorKind::CouldNotSell => "CouldNotSell"@,
            ErrorKind::IO => "IO"@,
            ErrorKind::LibLoading => "LibLoading"@,
            ErrorKind::MisMatchedVersion => "MisMatchedVersion"@,
            ErrorKind::NoNewPositions => "NoNewPositions"@,
            ErrorKind::Other => "Other"@,
            ErrorKind::Panic => "Panic"@,
            ErrorKind::TimeOut => "TimeOut"@,
        }
    }

    /// The name of the variant, as it is printed.
    pub fn name(&self) -> (r: &'static str)
        ensures
            r@ == self.spec_name(),
    {
        match self {
            ErrorKind::BrokerConnectionFailed => "BrokerConnectionFailed",
            ErrorKind::CouldNotLogin => "CouldNotLogin",
            ErrorKind::CouldNotBuy => "CouldNotBuy",
            ErrorKind::CouldNotSell => "CouldNotSell",
            ErrorKind::IO => "IO",
            ErrorKind::LibLoading => "LibLoading",
            ErrorKind::MisMatchedVersion => "MisMatchedVersion",
            ErrorKind::NoNewPositions => "NoNewPositions",
            ErrorKind::Other => "Other",
            ErrorKind::Panic => "Panic",
            ErrorKind::TimeOut => "TimeOut",
        }
    }
}

} // verus!
