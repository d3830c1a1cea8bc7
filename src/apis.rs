//! Errors reported by a broker client.
use vstd::prelude::*;

verus! {

/// What a broker request failed on.
#[derive(Debug, Clone, Copy, PartialEq, Eq, Structural)]
pub enum ErrorType {
    RequestError,
    NotEnoughMoney,
    NotEnoughMargin,
    MarginCall,
    NotAnActivePosition,
}

/// A broker error: its type, a message, and the text of the error that
/// caused it, if any.
pub struct Error {
    ty: ErrorType,
    msg: String,
    error: Option<String>,
}

impl Error {
    pub closed spec fn spec_type(&self) -> ErrorType {
        self.ty
    }

    pub closed spec fn spec_msg(&self) -> Seq<char> {
        self.msg@
    }

    /// The text of the underlying error, if there is one.
    pub closed spec fn spec_cause(&self) -> Option<Seq<char>> {
        match self.error {
            Some(e) => Some(e@),
            None => None,
        }
    }

    pub fn new(ty: ErrorType, msg: String) -> (r: Self)
        ensures
            r.spec_type() == ty,
            r.spec_msg() == msg@,
            r.spec_cause() == None::<Seq<char>>,
    {
        Self { ty, msg, error: None }
    }

    pub fn with_error(ty: ErrorType, msg: String, error: String) -> (r: Self)
        ensures
            r.spec_type() == ty,
            r.spec_msg() == msg@,
            r.spec_cause() == Some(error@),
    {
        Self { ty, msg, error: Some(error) }
    }

    pub fn error_type(&self) -> (r: ErrorType)
        ensures
            r == self.spec_type(),
    {
        self.ty
    }

    pub fn msg(&self) -> (r: &String)
        ensures
            r@ == self.spec_msg(),
    {
        &self.msg
    }

    pub fn error(&self) -> (r: &Option<String>)
        ensures
            match *r {
                Some(e) => self.spec_cause() == Some(e@),
                None => self.spec_cause() is None,
            },
    {
        &self.error
    }

    /// The text a failing caller reports: the type, then the message.
    pub fn raise_message(&self) -> (r: String)
        ensures
            r@ == self.spec_type().spec_name() + ": "@ + self.spec_msg(),
    {
        let mut r = String::from_str(self.ty.name());
        r.append(": ");
        r.append(self.msg.as_str());
        r
    }
}

impl ErrorType {
    pub open spec fn spec_name(&self) -> Seq<char> {
        match *self {
            ErrorType::RequestError => "RequestError"@,
            ErrorType::NotEnoughMoney => "NotEnoughMoney"@,
            ErrorType::NotEnoughMargin => "NotEnoughMargin"@,
            ErrorType::MarginCall => "MarginCall"@,
            ErrorType::NotAnActivePosition => "NotAnActivePosition"@,
        }
    }

    /// The name of the variant, as it is printed.
    pub fn name(&self) -> (r: &'static str)
        ensures
            r@ == self.spec_name(),
    {
        match self {
            ErrorType::RequestError => "RequestError",
            ErrorType::NotEnoughMoney => "NotEnoughMoney",
            ErrorType::NotEnoughMargin => "NotEnoughMargin",
            ErrorType::MarginCall => "MarginCall",
            ErrorType::NotAnActivePosition => "NotAnActivePosition",
        }
    }
}

} // verus!
