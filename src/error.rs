use vstd::prelude::*;

verus! {

/// What went wrong at the native boundary.
#[derive(Clone, Copy, Debug, PartialEq, Eq, Structural)]
pub enum ErrorKind {
    /// A text holds a zero byte and cannot be handed over as native text.
    InvalidArgument,
    /// A construct call (settings, engine or session) returned the null handle.
    NativeConstructionFailed,
    /// The generate call returned no response buffer.
    GenerationFailed,
    /// The response buffer held no text in its first slot.
    EmptyResponse,
    /// The metrics call returned no buffer.
    MetricsUnavailable,
}

/// An error of this library: a kind and a message for people.
#[derive(Clone, Debug)]
pub struct Error {
    kind: ErrorKind,
    message: String,
}

/// The prefix of every rendered error.
pub open spec fn error_prefix() -> Seq<char> {
    seq!['L', 'i', 't', 'e', 'R', 'T', '-', 'L', 'M', ' ', 'E', 'r', 'r', 'o', 'r', ':', ' ']
}

/// Relies on `String::push_str`: appends the characters of `t` to `s`.
#[verifier::external_body]
fn append(s: &mut String, t: &str)
    ensures
        final(s)@ == old(s)@ + t@,
{
    s.push_str(t)
}

impl Error {
    /// An error of the given kind with the given message.
    pub fn new(kind: ErrorKind, message: &str) -> (r: Error)
        ensures
            r.kind() == kind,
            r.message() == message@,
    {
        Error { kind, message: message.to_owned() }
    }

    /// The kind of this error, in contracts.
    pub closed spec fn kind(&self) -> ErrorKind {
        self.kind
    }

    /// The message of this error, in contracts.
    pub closed spec fn message(&self) -> Seq<char> {
        self.message@
    }

    /// The kind of this error.
    pub fn error_kind(&self) -> (r: ErrorKind)
        ensures
            r == self.kind(),
    {
        self.kind
    }

    /// The message of this error.
    pub fn message_text(&self) -> (r: &str)
        ensures
            r@ == self.message(),
    {
        self.message.as_str()
    }

    /// The error as one line of text: the prefix, then the message.
    pub fn to_string(&self) -> (r: String)
        ensures
            r@ == error_prefix() + self.message(),
    {
        let mut s = "LiteRT-LM Error: ".to_owned();
        proof {
            reveal_strlit("LiteRT-LM Error: ");
        }
        assert(s@ =~= error_prefix());
        append(&mut s, self.message.as_str());
        s
    }
}

} // verus!
