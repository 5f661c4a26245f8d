//! The decoding session: one compiled factory, one live matcher, and the
//! size of the vocabulary they are bound to.
//!
//! The engine's matcher latches into a failed state on any error. A session
//! therefore never lets the engine work on its live matcher: a query runs on
//! a fork that is thrown away, and a token is consumed by a fork that takes
//! the live matcher's place only when it has accepted the token. So a query
//! changes nothing, and a failed operation leaves the session as it was.

use vstd::prelude::*;
use crate::engine::{
    after_token,
    bits_of,
    compute_mask,
    consume_token,
    create_parser,
    describe,
    fork,
    mask_of,
    matcher_of,
    parser_of,
    set_log_level,
    single_byte_factory,
    SINGLE_BYTE_VOCABULARY,
    start_matcher,
    stop_of,
    stop_reason,
    vocabulary_of,
    vocabulary_size,
};
use crate::error::{
    advance_prefix,
    factory_prefix,
    mask_prefix,
    parser_prefix,
    ErrorKind,
    SessionError,
};
use crate::grammar::{
    anchored,
    described,
    is_description,
    law_pattern_is_anchored_text,
    normalized,
    parse_grammar,
    Variant,
};
use crate::mask::{admits, allows, dense, mask_bytes};
use crate::stop::StopReason;

verus! {

/// A decoding session over one grammar and one vocabulary.
pub struct LLGuidanceParser {
    factory: llguidance::ParserFactory,
    matcher: llguidance::Matcher,
    vocab_size: usize,
}

impl LLGuidanceParser {
    /// The factory that the session compiles its grammars with.
    pub closed spec fn factory(self) -> llguidance::ParserFactory {
        self.factory
    }

    /// The live matcher.
    pub closed spec fn matcher(self) -> llguidance::Matcher {
        self.matcher
    }

    /// The number of tokens of the vocabulary.
    pub closed spec fn vocabulary(self) -> usize {
        self.vocab_size
    }

    /// The session that differs from this one in its matcher only.
    pub closed spec fn with_matcher(self, matcher: llguidance::Matcher) -> Self {
        LLGuidanceParser { factory: self.factory, matcher, vocab_size: self.vocab_size }
    }

    /// The session of a factory, a matcher and the factory's vocabulary size.
    pub closed spec fn over(factory: llguidance::ParserFactory, matcher: llguidance::Matcher) -> Self {
        LLGuidanceParser { factory, matcher, vocab_size: vocabulary_of(factory) }
    }

    /// The recorded vocabulary size is that of the factory.
    pub open spec fn wf(self) -> bool {
        self.vocabulary() == vocabulary_of(self.factory())
    }

    /// The stop reason of the session.
    pub open spec fn stop(self) -> StopReason {
        stop_of(self.matcher())
    }

    /// Whether decoding has come to a regular end.
    pub open spec fn complete(self) -> bool {
        self.stop().is_terminal()
    }

    /// The dense mask of the current state: one byte per vocabulary entry.
    /// `None` where the engine computes no mask in this state.
    pub open spec fn mask(self) -> Option<Seq<u8>> {
        match mask_of(self.matcher()) {
            Some(mask) => Some(dense(bits_of(mask), self.vocabulary())),
            None => None,
        }
    }

    /// Whether a token is admissible in the current state: it is a token of
    /// the vocabulary and the engine's mask admits it. `None` where the
    /// engine computes no mask in this state.
    pub open spec fn allowed(self, token: u32) -> Option<bool> {
        match mask_of(self.matcher()) {
            Some(mask) => Some(token < self.vocabulary() && admits(bits_of(mask), token)),
            None => None,
        }
    }

    /// The session after the token, `None` where the token is refused: it is
    /// no token of the vocabulary, or the engine does not take it.
    pub open spec fn step(self, token: u32) -> Option<Self> {
        if token < self.vocabulary() {
            match after_token(self.matcher(), token) {
                Some(matcher) => Some(self.with_matcher(matcher)),
                None => None,
            }
        } else {
            None
        }
    }

    /// The session after a sequence of tokens, taken one by one; `None` where
    /// one of them is refused.
    pub open spec fn run(self, tokens: Seq<u32>) -> Option<Self>
        decreases tokens.len(),
    {
        if tokens.len() == 0 {
            Some(self)
        } else {
            match self.run(tokens.drop_last()) {
                Some(so_far) => so_far.step(tokens.last()),
                None => None,
            }
        }
    }

    /// The session that a factory starts on a grammar, `None` where the
    /// engine rejects the grammar.
    pub open spec fn started(
        factory: llguidance::ParserFactory,
        grammar: llguidance::api::TopLevelGrammar,
    ) -> Option<Self> {
        match parser_of(factory, grammar) {
            Some(parser) => Some(Self::over(factory, matcher_of(parser))),
            None => None,
        }
    }

    /// This session started anew on a grammar: same factory and vocabulary,
    /// and a matcher that owes nothing to the one before. `None` where the
    /// engine rejects the grammar.
    pub open spec fn restarted(self, grammar: llguidance::api::TopLevelGrammar) -> Option<Self> {
        match parser_of(self.factory(), grammar) {
            Some(parser) => Some(self.with_matcher(matcher_of(parser))),
            None => None,
        }
    }

    /// Whether some factory of the vocabulary of one token per byte rejects
    /// the grammar.
    pub open spec fn rejected(grammar: llguidance::api::TopLevelGrammar) -> bool {
        exists|factory: llguidance::ParserFactory|
            vocabulary_of(factory) == SINGLE_BYTE_VOCABULARY && (#[trigger] Self::started(
                factory,
                grammar,
            )) is None
    }

    /// What construction from a grammar document yields. A document that
    /// does not normalize gives the normalization error. One that does gives
    /// the session that a factory of the vocabulary of one token per byte
    /// starts on its grammar; or a construction error, which says either
    /// that no factory could be built, or that the factory built rejects the
    /// grammar.
    pub open spec fn constructed(raw: Seq<char>, r: Result<Self, SessionError>) -> bool {
        match normalized(raw) {
            Err(message) => r matches Err(error) && error.kind == ErrorKind::Normalization
                && error.message@ == message,
            Ok(grammar) => match r {
                Ok(session) => Self::started(session.factory(), grammar) == Some(session)
                    && session.vocabulary() == SINGLE_BYTE_VOCABULARY,
                Err(error) => {
                    ||| error.carries(ErrorKind::Construction, factory_prefix())
                    ||| error.carries(ErrorKind::Construction, parser_prefix())
                        && Self::rejected(grammar)
                },
            },
        }
    }

    /// What a mask query yields, and that it leaves the session as it was.
    pub open spec fn queried(before: Self, after: Self, r: Result<Vec<u8>, SessionError>) -> bool {
        &&& after == before
        &&& match before.mask() {
            Some(bytes) => r matches Ok(found) && found@ == bytes,
            None => r matches Err(error) && error.carries(ErrorKind::Mask, mask_prefix()),
        }
    }

    /// What a single-token query yields, and that it leaves the session as it
    /// was.
    pub open spec fn asked(before: Self, token: u32, after: Self, r: Result<bool, SessionError>)
        -> bool {
        &&& after == before
        &&& match before.allowed(token) {
            Some(answer) => r matches Ok(found) && found == answer,
            None => r matches Err(error) && error.carries(ErrorKind::Mask, mask_prefix()),
        }
    }

    /// What advancing by a token does: the session moves on where the token
    /// is taken, and stays as it was where it is refused.
    pub open spec fn advanced(before: Self, token: u32, after: Self, r: Result<(), SessionError>)
        -> bool {
        match before.step(token) {
            Some(next) => r is Ok && after == next,
            None => r matches Err(error) && error.carries(ErrorKind::Advance, advance_prefix())
                && after == before,
        }
    }

    /// What a reset does: the session starts anew on the grammar of the
    /// document, and stays as it was where the document or the grammar is
    /// rejected.
    pub open spec fn reset_to(before: Self, raw: Seq<char>, after: Self, r: Result<
        (),
        SessionError,
    >) -> bool {
        match normalized(raw) {
            Err(message) => r matches Err(error) && error.kind == ErrorKind::Normalization
                && error.message@ == message && after == before,
            Ok(grammar) => match before.restarted(grammar) {
                Some(next) => r is Ok && after == next,
                None => r matches Err(error) && error.carries(
                    ErrorKind::Construction,
                    parser_prefix(),
                ) && after == before,
            },
        }
    }

    /// Starts a session of a factory on a canonical grammar.
    pub fn assemble(factory: llguidance::ParserFactory, grammar: llguidance::api::TopLevelGrammar)
        -> (r: Result<Self, SessionError>)
        ensures
            match Self::started(factory, grammar) {
                Some(session) => r matches Ok(made) && made == session && session.wf(),
                None => r matches Err(error) && error.carries(
                    ErrorKind::Construction,
                    parser_prefix(),
                ),
            },
    {
        let vocab_size = vocabulary_size(&factory);
        match create_parser(&factory, grammar) {
            Ok(parser) => {
                let matcher = start_matcher(parser);
                Ok(LLGuidanceParser { factory, matcher, vocab_size })
            },
            Err(error) => Err(
                SessionError::with_detail(
                    ErrorKind::Construction,
                    "Failed to create parser: ",
                    describe(&error).as_str(),
                ),
            ),
        }
    }

    /// Creates a session over a grammar document, bound to the vocabulary of
    /// one token per byte. The tokenizer configuration is not read.
    pub fn new(grammar_json: &str, tokenizer_json: &str) -> (r: Result<Self, SessionError>)
        ensures
            Self::constructed(grammar_json@, r),
            r matches Ok(session) ==> session.wf() && session.vocabulary()
                == SINGLE_BYTE_VOCABULARY,
    {
        let grammar = match parse_grammar(grammar_json) {
            Ok(grammar) => grammar,
            Err(error) => {
                return Err(error);
            },
        };
        let mut factory = match single_byte_factory() {
            Ok(factory) => factory,
            Err(error) => {
                return Err(
                    SessionError::with_detail(
                        ErrorKind::Construction,
                        "Failed to create parser factory: ",
                        describe(&error).as_str(),
                    ),
                );
            },
        };
        set_log_level(&mut factory, 0);
        Self::assemble(factory, grammar)
    }

    /// Whether a token is admissible at the current position.
    pub fn is_token_allowed(&mut self, token_id: u32) -> (r: Result<bool, SessionError>)
        ensures
            Self::asked(*old(self), token_id, *final(self), r),
            !(old(self).stop() is NotStopped) ==> r is Err,
    {
        let mut probe = fork(&self.matcher);
        match compute_mask(&mut probe) {
            Ok(mask) => Ok((token_id as usize) < self.vocab_size && allows(&mask, token_id)),
            Err(error) => Err(
                SessionError::with_detail(
                    ErrorKind::Mask,
                    "Failed to compute mask: ",
                    describe(&error).as_str(),
                ),
            ),
        }
    }

    /// The mask of the current position, one byte per vocabulary entry.
    pub fn get_token_mask(&mut self) -> (r: Result<Vec<u8>, SessionError>)
        ensures
            Self::queried(*old(self), *final(self), r),
            !(old(self).stop() is NotStopped) ==> r is Err,
    {
        let mut probe = fork(&self.matcher);
        match compute_mask(&mut probe) {
            Ok(mask) => Ok(mask_bytes(&mask, self.vocab_size)),
            Err(error) => Err(
                SessionError::with_detail(
                    ErrorKind::Mask,
                    "Failed to compute mask: ",
                    describe(&error).as_str(),
                ),
            ),
        }
    }

    /// Consumes a token as the next of the sequence. The token is not held
    /// against the mask first: the engine takes it or refuses it.
    pub fn advance(&mut self, token_id: u32) -> (r: Result<(), SessionError>)
        ensures
            Self::advanced(*old(self), token_id, *final(self), r),
            !(old(self).stop() is NotStopped) ==> r is Err,
            old(self).wf() ==> final(self).wf(),
    {
        if token_id as usize >= self.vocab_size {
            return Err(
                SessionError::with_detail(
                    ErrorKind::Advance,
                    "Failed to consume token: ",
                    "token id out of range",
                ),
            );
        }
        let mut next = fork(&self.matcher);
        match consume_token(&mut next, token_id) {
            Ok(()) => {
                self.matcher = next;
                Ok(())
            },
            Err(error) => Err(
                SessionError::with_detail(
                    ErrorKind::Advance,
                    "Failed to consume token: ",
                    describe(&error).as_str(),
                ),
            ),
        }
    }

    /// Whether decoding has come to a regular end.
    pub fn is_complete(&self) -> (r: bool)
        ensures
            r == self.complete(),
    {
        stop_reason(&self.matcher).terminal()
    }

    /// Starts the session anew on another grammar document.
    pub fn reset(&mut self, grammar_json: &str) -> (r: Result<(), SessionError>)
        ensures
            Self::reset_to(*old(self), grammar_json@, *final(self), r),
            old(self).wf() ==> final(self).wf(),
    {
        let grammar = match parse_grammar(grammar_json) {
            Ok(grammar) => grammar,
            Err(error) => {
                return Err(error);
            },
        };
        match create_parser(&self.factory, grammar) {
            Ok(parser) => {
                self.matcher = start_matcher(parser);
                Ok(())
            },
            Err(error) => Err(
                SessionError::with_detail(
                    ErrorKind::Construction,
                    "Failed to create parser: ",
                    describe(&error).as_str(),
                ),
            ),
        }
    }

    /// The number of tokens of the vocabulary.
    pub fn vocab_size(&self) -> (r: usize)
        ensures
            r == self.vocabulary(),
    {
        self.vocab_size
    }

    /// The tag of the current stop reason.
    pub fn stop_reason(&self) -> (r: String)
        ensures
            r@ == self.stop().tag(),
    {
        stop_reason(&self.matcher).name()
    }
}

/// A mask has one entry per token of the vocabulary, each entry 0 or 1, and
/// a single-token query on the same state answers what the mask's entry of
/// that token says; the two queries fail together.
pub proof fn law_mask_agrees_with_single_query(
    before: LLGuidanceParser,
    between: LLGuidanceParser,
    mask: Result<Vec<u8>, SessionError>,
    token: u32,
    after: LLGuidanceParser,
    answer: Result<bool, SessionError>,
)
    requires
        LLGuidanceParser::queried(before, between, mask),
        LLGuidanceParser::asked(between, token, after, answer),
        token < before.vocabulary(),
    ensures
        mask is Ok <==> answer is Ok,
        mask matches Ok(bytes) ==> bytes@.len() == before.vocabulary() && (bytes@[token as int]
            == 0u8 || bytes@[token as int] == 1u8) && answer == Ok::<bool, SessionError>(
            bytes@[token as int] == 1u8,
        ),
{
}

/// Two mask queries in a row, with nothing in between, give the same mask,
/// or fail both.
pub proof fn law_mask_query_repeats(
    before: LLGuidanceParser,
    between: LLGuidanceParser,
    first: Result<Vec<u8>, SessionError>,
    after: LLGuidanceParser,
    second: Result<Vec<u8>, SessionError>,
)
    requires
        LLGuidanceParser::queried(before, between, first),
        LLGuidanceParser::queried(between, after, second),
    ensures
        after == before,
        first is Ok <==> second is Ok,
        first matches Ok(bytes) ==> second matches Ok(again) && again@ == bytes@,
{
}

/// A token that the session refuses changes nothing: the stop reason, the
/// mask and the answer to every single-token query stay what they were.
pub proof fn law_failed_advance_changes_nothing(
    before: LLGuidanceParser,
    token: u32,
    after: LLGuidanceParser,
    r: Result<(), SessionError>,
)
    requires
        LLGuidanceParser::advanced(before, token, after, r),
        r is Err,
    ensures
        after == before,
        after.stop() == before.stop(),
        after.complete() == before.complete(),
        after.mask() == before.mask(),
        forall|other: u32| after.allowed(other) == before.allowed(other),
{
}

/// A token outside the vocabulary is inadmissible: no query allows it, and
/// the session does not take it.
pub proof fn law_token_outside_the_vocabulary_is_refused(session: LLGuidanceParser, token: u32)
    requires
        token >= session.vocabulary(),
    ensures
        session.allowed(token) != Some(true),
        session.step(token) is None,
{
}

/// A token that the session takes moves the matcher on and nothing else:
/// factory and vocabulary stay.
pub proof fn law_advance_keeps_the_vocabulary(
    before: LLGuidanceParser,
    token: u32,
    after: LLGuidanceParser,
    r: Result<(), SessionError>,
)
    requires
        LLGuidanceParser::advanced(before, token, after, r),
    ensures
        after.vocabulary() == before.vocabulary(),
        after.factory() == before.factory(),
        r is Ok ==> after_token(before.matcher(), token) == Some(after.matcher()),
{
}

/// A reset replaces the matcher and nothing else: factory and vocabulary
/// stay, whether it succeeds or not.
pub proof fn law_reset_keeps_the_vocabulary(
    before: LLGuidanceParser,
    raw: Seq<char>,
    after: LLGuidanceParser,
    r: Result<(), SessionError>,
)
    requires
        LLGuidanceParser::reset_to(before, raw, after, r),
    ensures
        after.vocabulary() == before.vocabulary(),
        after.factory() == before.factory(),
        r is Err ==> after == before,
{
}

/// Two sessions of the same factory, the same matcher and the same
/// vocabulary size are the same session.
pub proof fn law_session_is_its_parts(one: LLGuidanceParser, other: LLGuidanceParser)
    requires
        one.factory() == other.factory(),
        one.matcher() == other.matcher(),
        one.vocabulary() == other.vocabulary(),
    ensures
        one == other,
{
}

/// What a started session holds: the factory it was started with, the size
/// of that factory's vocabulary, and the matcher with which the engine
/// starts the parser that the factory compiles from the grammar.
pub proof fn law_started_session_holds(
    factory: llguidance::ParserFactory,
    grammar: llguidance::api::TopLevelGrammar,
)
    ensures
        LLGuidanceParser::started(factory, grammar) is Some <==> parser_of(factory, grammar)
            is Some,
        LLGuidanceParser::started(factory, grammar) matches Some(session) ==> session.factory()
            == factory && session.vocabulary() == vocabulary_of(factory) && session.matcher()
            == matcher_of(parser_of(factory, grammar).unwrap()) && session.wf(),
{
}

/// What a restarted session holds: the factory and the vocabulary size it
/// had, and the matcher with which the engine starts the parser that its
/// factory compiles from the grammar. The matcher it had plays no part.
pub proof fn law_restarted_session_holds(
    before: LLGuidanceParser,
    grammar: llguidance::api::TopLevelGrammar,
)
    ensures
        before.restarted(grammar) is Some <==> parser_of(before.factory(), grammar) is Some,
        before.restarted(grammar) matches Some(session) ==> session.factory() == before.factory()
            && session.vocabulary() == before.vocabulary() && session.matcher() == matcher_of(
            parser_of(before.factory(), grammar).unwrap(),
        ),
        before.wf() ==> before.restarted(grammar) == LLGuidanceParser::started(
            before.factory(),
            grammar,
        ),
{
}

/// What a session holds after a token: the factory and the vocabulary size
/// it had, and the matcher that the engine leaves after the token.
pub proof fn law_stepped_session_holds(before: LLGuidanceParser, token: u32)
    ensures
        before.step(token) is Some <==> token < before.vocabulary() && after_token(
            before.matcher(),
            token,
        ) is Some,
        before.step(token) matches Some(session) ==> session.factory() == before.factory()
            && session.vocabulary() == before.vocabulary() && session.matcher() == after_token(
            before.matcher(),
            token,
        ).unwrap(),
{
}

/// Progress is recorded and never dropped: a session that has taken the
/// tokens `taken` one by one, and then takes one more, is the session that
/// has taken `taken` with that token at its end.
pub proof fn law_progress_is_recorded(
    start: LLGuidanceParser,
    taken: Seq<u32>,
    before: LLGuidanceParser,
    token: u32,
    after: LLGuidanceParser,
    r: Result<(), SessionError>,
)
    requires
        start.run(taken) == Some(before),
        LLGuidanceParser::advanced(before, token, after, r),
    ensures
        r is Ok ==> start.run(taken.push(token)) == Some(after),
        r is Err ==> start.run(taken.push(token)) is None && start.run(taken) == Some(after),
{
    assert(taken.push(token).drop_last() =~= taken);
    assert(taken.push(token).last() == token);
}

/// A run of tokens keeps factory and vocabulary, and a run of no token
/// changes nothing.
pub proof fn law_run_keeps_the_vocabulary(start: LLGuidanceParser, tokens: Seq<u32>)
    ensures
        start.run(Seq::<u32>::empty()) == Some(start),
        start.run(tokens) matches Some(after) ==> after.factory() == start.factory()
            && after.vocabulary() == start.vocabulary(),
    decreases tokens.len(),
{
    if tokens.len() > 0 {
        law_run_keeps_the_vocabulary(start, tokens.drop_last());
    }
}

/// A reset fails exactly where starting a session of the same factory on the
/// document fails: the document does not normalize, or the factory rejects
/// its grammar.
pub proof fn law_reset_fails_where_starting_fails(
    before: LLGuidanceParser,
    raw: Seq<char>,
    after: LLGuidanceParser,
    r: Result<(), SessionError>,
)
    requires
        LLGuidanceParser::reset_to(before, raw, after, r),
    ensures
        r is Err <==> (normalized(raw) matches Ok(grammar) ==> LLGuidanceParser::started(
            before.factory(),
            grammar,
        ) is None),
        r matches Err(error) ==> (error.kind == ErrorKind::Normalization <==> normalized(raw)
            is Err),
{
}

/// Construction fails on a document that does not normalize, and succeeds on
/// no other document unless its factory compiles the grammar; a failure that
/// names the parser says that a factory of the vocabulary of one token per
/// byte rejects the grammar.
pub proof fn law_construction_fails_for_a_cause(raw: Seq<char>, r: Result<
    LLGuidanceParser,
    SessionError,
>)
    requires
        LLGuidanceParser::constructed(raw, r),
    ensures
        normalized(raw) is Err ==> r is Err,
        r matches Ok(session) ==> normalized(raw) is Ok && parser_of(
            session.factory(),
            normalized(raw)->Ok_0,
        ) is Some && vocabulary_of(session.factory()) == SINGLE_BYTE_VOCABULARY,
        r matches Err(error) ==> (error.kind == ErrorKind::Normalization <==> normalized(raw)
            is Err),
        r matches Err(error) ==> normalized(raw) is Ok && !error.carries(
            ErrorKind::Construction,
            factory_prefix(),
        ) ==> LLGuidanceParser::rejected(normalized(raw)->Ok_0),
{
}

/// A session that was reset to a grammar document is the session that
/// construction over the same document and the same factory yields: it has
/// the same mask, the same stop reason, and answers every query alike.
/// Nothing of the matcher before the reset is left.
pub proof fn law_reset_is_fresh(
    before: LLGuidanceParser,
    raw: Seq<char>,
    after: LLGuidanceParser,
    fresh: LLGuidanceParser,
)
    requires
        before.wf(),
        LLGuidanceParser::reset_to(before, raw, after, Ok(())),
        LLGuidanceParser::constructed(raw, Ok(fresh)),
        fresh.factory() == before.factory(),
    ensures
        after == fresh,
        after.mask() == fresh.mask(),
        after.stop() == fresh.stop(),
        after.complete() == fresh.complete(),
        forall|token: u32| after.allowed(token) == fresh.allowed(token),
        forall|tokens: Seq<u32>| after.run(tokens) == fresh.run(tokens),
{
}

/// A reset does not depend on what the session has consumed: two sessions of
/// one factory and one vocabulary size are the same session after a reset to
/// the same document.
pub proof fn law_reset_forgets_progress(
    one: LLGuidanceParser,
    other: LLGuidanceParser,
    raw: Seq<char>,
    one_after: LLGuidanceParser,
    other_after: LLGuidanceParser,
)
    requires
        one.factory() == other.factory(),
        one.vocabulary() == other.vocabulary(),
        LLGuidanceParser::reset_to(one, raw, one_after, Ok(())),
        LLGuidanceParser::reset_to(other, raw, other_after, Ok(())),
    ensures
        one_after == other_after,
{
}

/// A session started on a description whose first variant is a regular
/// expression is the session that the same factory starts on a description
/// whose first variant is the grammar text `start: /<expression>/`: the two
/// have the same mask and stop reason at the start and after every run of
/// tokens.
pub proof fn law_pattern_session_is_text_session(
    factory: llguidance::ParserFactory,
    pattern_doc: Seq<char>,
    text_doc: Seq<char>,
    rx: Seq<char>,
)
    requires
        is_description(pattern_doc),
        described(pattern_doc).unwrap()[0] == Variant::Pattern(rx),
        is_description(text_doc),
        described(text_doc).unwrap()[0] == Variant::Text(anchored(rx)),
    ensures
        normalized(pattern_doc) is Ok,
        normalized(text_doc) is Ok,
        LLGuidanceParser::started(factory, normalized(pattern_doc)->Ok_0)
            == LLGuidanceParser::started(factory, normalized(text_doc)->Ok_0),
{
    law_pattern_is_anchored_text(pattern_doc, text_doc, rx);
}

} // verus!
