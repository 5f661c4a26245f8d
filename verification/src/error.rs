//! The failures of a session, each with what went wrong in words.

use vstd::prelude::*;

verus! {

/// What kind of operation failed.
#[derive(Clone, Copy, Debug, PartialEq, Eq, Structural)]
pub enum ErrorKind {
    /// The grammar document is malformed or of no supported form.
    Normalization,
    /// The engine could not be bound to the vocabulary, or rejects the
    /// grammar.
    Construction,
    /// The live matcher cannot produce a mask.
    Mask,
    /// The live matcher does not take the token.
    Advance,
}

/// A failure of a session: its kind and a message for the host.
#[derive(Debug)]
pub struct SessionError {
    pub kind: ErrorKind,
    pub message: String,
}

/// What every message of a failed native parse starts with.
pub open spec fn parse_prefix() -> Seq<char> {
    "Failed to parse grammar JSON: "@
}

/// What every message of a failed factory construction starts with.
pub open spec fn factory_prefix() -> Seq<char> {
    "Failed to create parser factory: "@
}

/// What every message of a rejected grammar starts with.
pub open spec fn parser_prefix() -> Seq<char> {
    "Failed to create parser: "@
}

/// What every message of a failed mask computation starts with.
pub open spec fn mask_prefix() -> Seq<char> {
    "Failed to compute mask: "@
}

/// What every message of a refused token starts with.
pub open spec fn advance_prefix() -> Seq<char> {
    "Failed to consume token: "@
}

impl SessionError {
    /// Whether the error is of the given kind and its message starts with
    /// the given words.
    pub open spec fn carries(self, kind: ErrorKind, prefix: Seq<char>) -> bool {
        self.kind == kind && prefix.is_prefix_of(self.message@)
    }

    /// The error of the given kind whose message is `prefix` followed by
    /// `detail`.
    pub fn with_detail(kind: ErrorKind, prefix: &str, detail: &str) -> (r: SessionError)
        ensures
            r.kind == kind,
            r.message@ == prefix@ + detail@,
            r.carries(kind, prefix@),
    {
        let mut message = String::from_str(prefix);
        message.append(detail);
        assert((prefix@ + detail@).subrange(0, prefix@.len() as int) =~= prefix@);
        SessionError { kind, message }
    }
}

} // verus!
