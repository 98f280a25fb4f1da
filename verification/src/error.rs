//! The error type of the runtime side: the C errors are untyped strings, wrapped here.
use vstd::prelude::*;

verus! {

/// An error, carrying the message the C side or the library gave.
pub struct Error {
    s: String,
}

impl View for Error {
    type V = Seq<char>;

    closed spec fn view(&self) -> Seq<char> {
        self.s@
    }
}

impl Error {
    /// Create a new `Error` from a string
    pub fn new(s: String) -> (r: Self)
        ensures
            r@ == s@,
    {
        Error { s }
    }

    /// Create a new `Error` from a message
    pub fn from_msg(s: &str) -> (r: Self)
        ensures
            r@ == s@,
    {
        Error { s: s.to_string() }
    }

    /// The message
    pub fn as_str(&self) -> (r: &str)
        ensures
            r@ == self@,
    {
        self.s.as_str()
    }

    /// The message, as an owned string
    pub fn to_string(&self) -> (r: String)
        ensures
            r@ == self@,
    {
        self.s.clone()
    }
}

impl From<String> for Error {
    fn from(s: String) -> (r: Self) {
        Error { s }
    }
}

impl vstd::std_specs::convert::FromSpecImpl<String> for Error {
    open spec fn obeys_from_spec() -> bool {
        true
    }

    closed spec fn from_spec(v: String) -> Error {
        Error { s: v }
    }
}

/// An error made from a string carries that string.
pub proof fn lemma_from_string(v: String)
    ensures
        <Error as vstd::std_specs::convert::FromSpec<String>>::from_spec(v)@ == v@,
{
}

} // verus!
