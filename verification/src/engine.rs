//! The boundary to `llguidance`, the engine that compiles a grammar and
//! tracks, token by token, what may follow.
//!
//! The engine is deterministic: what a call returns depends on the values it
//! is given and, for a matcher, on the state the matcher is in. The names
//! below stand for those results. Nothing in this file is proved.

use vstd::prelude::*;
use crate::stop::StopReason;

verus! {

/// The live cursor of one decoding run.
#[verifier::external_type_specification]
#[verifier::external_body]
pub struct ExMatcher(llguidance::Matcher);

/// The artifact that binds grammar compilation to one vocabulary.
#[verifier::external_type_specification]
#[verifier::external_body]
pub struct ExParserFactory(llguidance::ParserFactory);

/// A compiled grammar, ready to be driven by a matcher.
#[verifier::external_type_specification]
#[verifier::external_body]
pub struct ExTokenParser(llguidance::TokenParser);

/// The canonical grammar, the one form the engine compiles.
#[verifier::external_type_specification]
#[verifier::external_body]
pub struct ExTopLevelGrammar(llguidance::api::TopLevelGrammar);

/// A bit per token.
#[verifier::external_type_specification]
#[verifier::external_body]
pub struct ExSimpleVob(llguidance::toktrie::SimpleVob);

/// The engine's error.
#[verifier::external_type_specification]
#[verifier::external_body]
pub struct ExEngineError(anyhow::Error);

/// The size of the vocabulary of one token per byte: 256 bytes and six
/// special tokens.
pub const SINGLE_BYTE_VOCABULARY: usize = 262;

/// The canonical grammar made of one grammar text.
pub uninterp spec fn lark_of(source: Seq<char>) -> llguidance::api::TopLevelGrammar;

/// The canonical grammar made of one JSON Schema.
pub uninterp spec fn schema_of(schema: serde_json::Value) -> llguidance::api::TopLevelGrammar;

/// What a text gives when read as a document in the engine's own grammar
/// format.
pub uninterp spec fn native_of(raw: Seq<char>) -> Result<
    llguidance::api::TopLevelGrammar,
    serde_json::Error,
>;

/// The number of tokens of the vocabulary that a factory is bound to.
pub uninterp spec fn vocabulary_of(factory: llguidance::ParserFactory) -> usize;

/// The parser that a factory compiles from a grammar, `None` where the
/// grammar is rejected.
pub uninterp spec fn parser_of(
    factory: llguidance::ParserFactory,
    grammar: llguidance::api::TopLevelGrammar,
) -> Option<llguidance::TokenParser>;

/// The matcher that starts a run of a parser.
pub uninterp spec fn matcher_of(parser: llguidance::TokenParser) -> llguidance::Matcher;

/// The stop reason that a matcher reports.
pub uninterp spec fn stop_of(matcher: llguidance::Matcher) -> StopReason;

/// The mask that a matcher computes in its state, `None` where it cannot.
pub uninterp spec fn mask_of(matcher: llguidance::Matcher) -> Option<
    llguidance::toktrie::SimpleVob,
>;

/// The matcher after it has consumed a token, `None` where it refuses the
/// token.
pub uninterp spec fn after_token(matcher: llguidance::Matcher, token: u32) -> Option<
    llguidance::Matcher,
>;

/// The bits of a mask, one per token id from 0 on.
pub uninterp spec fn bits_of(mask: llguidance::toktrie::SimpleVob) -> Seq<bool>;

/// `TopLevelGrammar::from_lark`: wraps the text as the only grammar.
#[verifier::external_body]
pub(crate) fn grammar_from_lark(source: String) -> (r: llguidance::api::TopLevelGrammar)
    ensures
        r == lark_of(source@),
{
    llguidance::api::TopLevelGrammar::from_lark(source)
}

/// `TopLevelGrammar::from_json_schema`: wraps the schema as the only grammar.
#[verifier::external_body]
pub(crate) fn grammar_from_schema(schema: serde_json::Value) -> (r:
    llguidance::api::TopLevelGrammar)
    ensures
        r == schema_of(schema),
{
    llguidance::api::TopLevelGrammar::from_json_schema(schema)
}

/// `serde_json::from_str::<TopLevelGrammar>`: reads the engine's own
/// serialized grammar format; the outcome depends on the text alone.
#[verifier::external_body]
pub(crate) fn grammar_from_native(raw: &str) -> (r: Result<
    llguidance::api::TopLevelGrammar,
    serde_json::Error,
>)
    ensures
        r == native_of(raw@),
{
    serde_json::from_str::<llguidance::api::TopLevelGrammar>(raw)
}

/// `ParserFactory::new_simple` over `ApproximateTokEnv::single_byte_env`: a
/// factory bound to the vocabulary of one token per byte. That vocabulary
/// has the 256 bytes and six special tokens after them. Whether the factory
/// can be built is not promised.
#[verifier::external_body]
pub(crate) fn single_byte_factory() -> (r: Result<llguidance::ParserFactory, anyhow::Error>)
    ensures
        r matches Ok(factory) ==> vocabulary_of(factory) == SINGLE_BYTE_VOCABULARY,
{
    llguidance::ParserFactory::new_simple(
        &llguidance::toktrie::ApproximateTokEnv::single_byte_env(),
    )
}

/// `ParserFactory::set_stderr_log_level`: sets how much the parsers made
/// later write to standard error; the vocabulary stays.
#[verifier::external_body]
pub(crate) fn set_log_level(factory: &mut llguidance::ParserFactory, level: u32)
    ensures
        vocabulary_of(*final(factory)) == vocabulary_of(*old(factory)),
{
    factory.set_stderr_log_level(level);
}

/// `TokTrie::vocab_size` of the factory's token environment.
#[verifier::external_body]
pub(crate) fn vocabulary_size(factory: &llguidance::ParserFactory) -> (r: usize)
    ensures
        r == vocabulary_of(*factory),
{
    factory.tok_env().tok_trie().vocab_size()
}

/// `ParserFactory::create_parser`: compiles the grammar against the
/// factory's vocabulary.
#[verifier::external_body]
pub(crate) fn create_parser(
    factory: &llguidance::ParserFactory,
    grammar: llguidance::api::TopLevelGrammar,
) -> (r: Result<llguidance::TokenParser, anyhow::Error>)
    ensures
        r matches Ok(parser) ==> parser_of(*factory, grammar) == Some(parser),
        r is Err ==> parser_of(*factory, grammar) is None,
{
    factory.create_parser(grammar)
}

/// `Matcher::new` on a parser that was built.
#[verifier::external_body]
pub(crate) fn start_matcher(parser: llguidance::TokenParser) -> (r: llguidance::Matcher)
    ensures
        r == matcher_of(parser),
{
    llguidance::Matcher::new(Ok(parser))
}

/// `Matcher::deep_clone`: a copy in the same state, with lexer caches of its
/// own, so that nothing done to the copy reaches the matcher it was made
/// from.
#[verifier::external_body]
pub(crate) fn fork(matcher: &llguidance::Matcher) -> (r: llguidance::Matcher)
    ensures
        r == *matcher,
{
    matcher.deep_clone()
}

/// `Matcher::stop_reason`, variant for variant.
#[verifier::external_body]
pub(crate) fn stop_reason(matcher: &llguidance::Matcher) -> (r: StopReason)
    ensures
        r == stop_of(*matcher),
{
    match matcher.stop_reason() {
        llguidance::api::StopReason::NotStopped => StopReason::NotStopped,
        llguidance::api::StopReason::MaxTokensTotal => StopReason::MaxTokensTotal,
        llguidance::api::StopReason::MaxTokensParser => StopReason::MaxTokensParser,
        llguidance::api::StopReason::NoExtension => StopReason::NoExtension,
        llguidance::api::StopReason::NoExtensionBias => StopReason::NoExtensionBias,
        llguidance::api::StopReason::EndOfSentence => StopReason::EndOfSentence,
        llguidance::api::StopReason::InternalError => StopReason::InternalError,
        llguidance::api::StopReason::LexerTooComplex => StopReason::LexerTooComplex,
        llguidance::api::StopReason::ParserTooComplex => StopReason::ParserTooComplex,
        llguidance::api::StopReason::Cancelled => StopReason::Cancelled,
    }
}

/// `Matcher::compute_mask`: the mask of the state the matcher is in. A
/// matcher that has stopped, for whatever reason, computes none. Nothing is
/// said of the state the call leaves the matcher in.
#[verifier::external_body]
pub(crate) fn compute_mask(matcher: &mut llguidance::Matcher) -> (r: Result<
    llguidance::toktrie::SimpleVob,
    anyhow::Error,
>)
    ensures
        r matches Ok(mask) ==> mask_of(*old(matcher)) == Some(mask),
        r is Err ==> mask_of(*old(matcher)) is None,
        !(stop_of(*old(matcher)) is NotStopped) ==> r is Err,
{
    matcher.compute_mask()
}

/// `Matcher::consume_token`: on success the matcher has moved on by the
/// token. A matcher that has stopped, for whatever reason, consumes none.
/// Nothing is said of the state a failed call leaves the matcher in.
#[verifier::external_body]
pub(crate) fn consume_token(matcher: &mut llguidance::Matcher, token: u32) -> (r: Result<
    (),
    anyhow::Error,
>)
    ensures
        r is Ok ==> after_token(*old(matcher), token) == Some(*final(matcher)),
        r is Err ==> after_token(*old(matcher), token) is None,
        !(stop_of(*old(matcher)) is NotStopped) ==> r is Err,
{
    matcher.consume_token(token)
}

/// `SimpleVob::len`: the number of bits.
#[verifier::external_body]
pub(crate) fn mask_len(mask: &llguidance::toktrie::SimpleVob) -> (r: usize)
    ensures
        r == bits_of(*mask).len(),
{
    mask.len()
}

/// `SimpleVob::is_allowed`: the bit of a token. The call indexes the bits,
/// so the token has to lie within them.
#[verifier::external_body]
pub(crate) fn is_allowed(mask: &llguidance::toktrie::SimpleVob, token: u32) -> (r: bool)
    requires
        token < bits_of(*mask).len(),
    ensures
        r == bits_of(*mask)[token as int],
{
    mask.is_allowed(token)
}

/// The `Display` text of the engine's error, through `to_string`.
#[verifier::external_body]
pub(crate) fn describe(error: &anyhow::Error) -> (r: String) {
    error.to_string()
}

} // verus!
