use vstd::prelude::*;
use vstd::string::StringExecFns;

verus! {

/// The class of an accept-style failure, as far as the retry policy needs to
/// know it.
#[derive(Clone, Copy, Debug, PartialEq, Eq, Structural)]
pub enum AcceptErrorKind {
    /// The peer refused the connection.
    ConnectionRefused,
    /// The connection was aborted before it was accepted.
    ConnectionAborted,
    /// The peer reset the connection.
    ConnectionReset,
    /// Any other failure, resource exhaustion included.
    Other,
}

/// A failure reported by an accept-style operation: its class and, where the
/// operating system gave one, its raw error code.
#[derive(Clone, Copy, Debug, PartialEq, Eq, Structural)]
pub struct AcceptError {
    pub kind: AcceptErrorKind,
    pub raw_os_error: Option<i32>,
}

impl AcceptError {
    /// An error of the given class that carries no operating-system code.
    pub fn from_kind(kind: AcceptErrorKind) -> (r: AcceptError)
        ensures
            r == (AcceptError { kind: kind, raw_os_error: None }),
    {
        AcceptError { kind, raw_os_error: None }
    }

    /// An error that carries the operating-system code `code`.
    pub fn from_raw_os_error(kind: AcceptErrorKind, code: i32) -> (r: AcceptError)
        ensures
            r == (AcceptError { kind: kind, raw_os_error: Some(code) }),
    {
        AcceptError { kind, raw_os_error: Some(code) }
    }
}

/// Per-connection failures: the next connection may be ready at once.
pub open spec fn is_transient_kind(k: AcceptErrorKind) -> bool {
    k == AcceptErrorKind::ConnectionRefused || k == AcceptErrorKind::ConnectionAborted
        || k == AcceptErrorKind::ConnectionReset
}

/// Returns true if the error is transient.
///
/// A transient error is one after which the next connection can be accepted
/// immediately without the risk of a tight loop (the peer reset, aborted or
/// refused one connection). Every other error, unknown ones included, should
/// be followed by a pause before the next accept.
pub fn is_transient_error(e: &AcceptError) -> (r: bool)
    ensures
        r == is_transient_kind(e.kind),
{
    match e.kind {
        AcceptErrorKind::ConnectionRefused => true,
        AcceptErrorKind::ConnectionAborted => true,
        AcceptErrorKind::ConnectionReset => true,
        AcceptErrorKind::Other => false,
    }
}

/// Too many open files in the process.
pub const EMFILE: i32 = 24;

/// Too many open files in the system.
pub const ENFILE: i32 = 23;

/// The resource-exhaustion errors that have a hint.
#[derive(Clone, Copy, Debug, PartialEq, Eq, Structural)]
pub enum KnownError {
    Enfile,
    Emfile,
}

/// The known error that a raw operating-system code stands for.
pub open spec fn known_error_of(code: Option<i32>) -> Option<KnownError> {
    match code {
        Some(c) => if c == EMFILE {
            Some(KnownError::Emfile)
        } else if c == ENFILE {
            Some(KnownError::Enfile)
        } else {
            None
        },
        None => None,
    }
}

/// A hint for the operator on how to remedy an error.
///
/// Most errors have no hint; the hint is then empty and renders as nothing.
#[derive(Clone, Copy, Debug)]
pub struct ErrorHint {
    error: Option<KnownError>,
}

/// Returns the hint for an error, looked up by its operating-system code.
pub fn error_hint(e: &AcceptError) -> (r: ErrorHint)
    ensures
        r.known() == known_error_of(e.raw_os_error),
{
    let error = match e.raw_os_error {
        Some(c) => if c == EMFILE {
            Some(KnownError::Emfile)
        } else if c == ENFILE {
            Some(KnownError::Enfile)
        } else {
            None
        },
        None => None,
    };
    ErrorHint { error }
}

pub open spec fn hint_text_of(k: Option<KnownError>) -> Seq<char> {
    match k {
        None => ""@,
        Some(KnownError::Emfile) => "Increase per-process open file limit"@,
        Some(KnownError::Enfile) => "Increase system open file limit"@,
    }
}

pub open spec fn link_hash_of(k: Option<KnownError>) -> Seq<char> {
    match k {
        None => ""@,
        Some(KnownError::Emfile) => "EMFILE"@,
        Some(KnownError::Enfile) => "ENFILE"@,
    }
}

pub open spec fn default_link_base_text() -> Seq<char> {
    "https://bit.ly/async-err"@
}

/// What a hint renders as: nothing for an empty hint, else the text, the
/// base link, `#` and the link hash.
pub open spec fn rendered_hint(k: Option<KnownError>) -> Seq<char> {
    match k {
        None => Seq::empty(),
        Some(_) => hint_text_of(k) + " "@ + default_link_base_text() + "#"@ + link_hash_of(k),
    }
}

impl ErrorHint {
    /// The known error the hint is about, if any.
    pub closed spec fn known(&self) -> Option<KnownError> {
        self.error
    }

    /// Text of the hint: a call to action printed after the error message.
    pub fn hint_text(&self) -> (r: &'static str)
        ensures
            r@ == hint_text_of(self.known()),
    {
        match self.error {
            None => "",
            Some(KnownError::Emfile) => "Increase per-process open file limit",
            Some(KnownError::Enfile) => "Increase system open file limit",
        }
    }

    /// The part of the link after the `#` sign. Link hashes are stable.
    pub fn link_hash(&self) -> (r: &'static str)
        ensures
            r@ == link_hash_of(self.known()),
    {
        match self.error {
            None => "",
            Some(KnownError::Emfile) => "EMFILE",
            Some(KnownError::Enfile) => "ENFILE",
        }
    }

    /// The base link printed with the hint; append `#` and the link hash.
    pub fn default_link_base(&self) -> (r: &'static str)
        ensures
            r@ == default_link_base_text(),
    {
        "https://bit.ly/async-err"
    }

    /// Returns true if there is no hint for the error.
    pub fn is_empty(&self) -> (r: bool)
        ensures
            r == self.known().is_none(),
    {
        self.error.is_none()
    }

    /// The hint as it is printed in a log line.
    pub fn to_text(&self) -> (r: String)
        ensures
            r@ == rendered_hint(self.known()),
    {
        let mut s = String::new();
        if self.error.is_some() {
            s.append(self.hint_text());
            s.append(" ");
            s.append(self.default_link_base());
            s.append("#");
            s.append(self.link_hash());
        }
        proof {
            assert(s@ =~= rendered_hint(self.known()));
        }
        s
    }
}

} // verus!
