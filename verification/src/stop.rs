//! Why a session has stopped, and which of the reasons end a decoding run.

use vstd::prelude::*;
use vstd::string::*;

verus! {

/// The engine's assessment of whether, and why, decoding should stop.
#[derive(Clone, Copy, Debug, PartialEq, Eq, Structural)]
pub enum StopReason {
    /// Nothing has stopped the session yet.
    NotStopped,
    /// The bound on the total number of tokens was reached.
    MaxTokensTotal,
    /// The bound on the tokens of the top-level parser was reached.
    MaxTokensParser,
    /// The grammar admits no further byte.
    NoExtension,
    /// The grammar admits no further byte; noticed while computing a mask.
    NoExtensionBias,
    /// The grammar allowed the end of the sequence, and it was generated.
    EndOfSentence,
    /// The engine failed.
    InternalError,
    /// The lexer grew beyond its limits.
    LexerTooComplex,
    /// The parser grew beyond its limits.
    ParserTooComplex,
    /// A cancellation request was observed.
    Cancelled,
}

impl StopReason {
    /// A reason is terminal when it marks a regular end of decoding: the end
    /// of the sequence, no valid extension, the token bound, or no extension
    /// left to bias.
    pub open spec fn is_terminal(self) -> bool {
        self is EndOfSentence || self is NoExtension || self is MaxTokensTotal
            || self is NoExtensionBias
    }

    /// The tag under which the reason is shown to the host.
    pub open spec fn tag(self) -> Seq<char> {
        match self {
            StopReason::NotStopped => "NotStopped"@,
            StopReason::MaxTokensTotal => "MaxTokensTotal"@,
            StopReason::MaxTokensParser => "MaxTokensParser"@,
            StopReason::NoExtension => "NoExtension"@,
            StopReason::NoExtensionBias => "NoExtensionBias"@,
            StopReason::EndOfSentence => "EndOfSentence"@,
            StopReason::InternalError => "InternalError"@,
            StopReason::LexerTooComplex => "LexerTooComplex"@,
            StopReason::ParserTooComplex => "ParserTooComplex"@,
            StopReason::Cancelled => "Cancelled"@,
        }
    }

    /// Whether the reason is one of the four that end a decoding run.
    pub fn terminal(&self) -> (r: bool)
        ensures
            r == self.is_terminal(),
    {
        match self {
            StopReason::EndOfSentence => true,
            StopReason::NoExtension => true,
            StopReason::MaxTokensTotal => true,
            StopReason::NoExtensionBias => true,
            _ => false,
        }
    }

    /// The reason's tag as an owned string.
    pub fn name(&self) -> (r: String)
        ensures
            r@ == self.tag(),
    {
        match self {
            StopReason::NotStopped => String::from_str("NotStopped"),
            StopReason::MaxTokensTotal => String::from_str("MaxTokensTotal"),
            StopReason::MaxTokensParser => String::from_str("MaxTokensParser"),
            StopReason::NoExtension => String::from_str("NoExtension"),
            StopReason::NoExtensionBias => String::from_str("NoExtensionBias"),
            StopReason::EndOfSentence => String::from_str("EndOfSentence"),
            StopReason::InternalError => String::from_str("InternalError"),
            StopReason::LexerTooComplex => String::from_str("LexerTooComplex"),
            StopReason::ParserTooComplex => String::from_str("ParserTooComplex"),
            StopReason::Cancelled => String::from_str("Cancelled"),
        }
    }
}

} // verus!
