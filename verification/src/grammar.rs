//! Grammar normalization: from the host's grammar description to the one
//! canonical grammar that the engine compiles.
//!
//! A description is a JSON object whose member `grammars` is an array of
//! variants. A variant is an object with a member `json_schema` (any JSON
//! value), or else a member `rx` that is a string, or else a member `lark`
//! that is a string. Only the first variant is used. A text that is no
//! description, or an empty one, is read as a document in the engine's own
//! grammar format.

use vstd::prelude::*;
use crate::engine::{
    grammar_from_lark,
    grammar_from_native,
    grammar_from_schema,
    lark_of,
    native_of,
    schema_of,
};
use crate::error::{parse_prefix, ErrorKind, SessionError};
use crate::json::{
    document_of,
    duplicate,
    items,
    items_of,
    member,
    member_of,
    message,
    message_of,
    parse_document,
    text,
    text_of,
};

verus! {

/// One grammar of a description.
pub enum GrammarSpec {
    /// A JSON Schema.
    JsonSchema { json_schema: serde_json::Value },
    /// A regular expression that the whole output has to match.
    Regex { rx: String },
    /// A grammar in the engine's grammar notation.
    Lark { lark: String },
}

/// A grammar description: its variants in order.
pub struct GrammarInput {
    pub grammars: Vec<GrammarSpec>,
}

/// What a variant is, as a mathematical value.
pub ghost enum Variant {
    Schema(serde_json::Value),
    Pattern(Seq<char>),
    Text(Seq<char>),
}

impl View for GrammarSpec {
    type V = Variant;

    open spec fn view(&self) -> Variant {
        match self {
            GrammarSpec::JsonSchema { json_schema } => Variant::Schema(*json_schema),
            GrammarSpec::Regex { rx } => Variant::Pattern(rx@),
            GrammarSpec::Lark { lark } => Variant::Text(lark@),
        }
    }
}

impl View for GrammarInput {
    type V = Seq<Variant>;

    open spec fn view(&self) -> Seq<Variant> {
        self.grammars@.map_values(|spec: GrammarSpec| spec@)
    }
}

/// The grammar text whose single rule matches a regular expression as the
/// whole input. The expression is put between the slashes as it is.
pub open spec fn anchored(rx: Seq<char>) -> Seq<char> {
    "start: /"@ + rx + "/"@
}

/// The variant that a JSON value is read as, `None` where it is none.
/// `json_schema` is looked for first, then `rx`, then `lark`; a member `rx`
/// or `lark` that is no string does not count.
pub open spec fn variant_of(item: serde_json::Value) -> Option<Variant> {
    if let Some(schema) = member_of(item, "json_schema"@) {
        Some(Variant::Schema(schema))
    } else if member_of(item, "rx"@) is Some && text_of(member_of(item, "rx"@).unwrap()) is Some {
        Some(Variant::Pattern(text_of(member_of(item, "rx"@).unwrap()).unwrap()))
    } else if member_of(item, "lark"@) is Some && text_of(member_of(item, "lark"@).unwrap())
        is Some {
        Some(Variant::Text(text_of(member_of(item, "lark"@).unwrap()).unwrap()))
    } else {
        None
    }
}

/// The variants of a JSON value read as a description, `None` where it is
/// none: where it has no member `grammars`, the member is no array, or one
/// of its elements is no variant.
pub open spec fn description_of(doc: serde_json::Value) -> Option<Seq<Variant>> {
    if member_of(doc, "grammars"@) is Some && items_of(member_of(doc, "grammars"@).unwrap())
        is Some {
        let elements = items_of(member_of(doc, "grammars"@).unwrap()).unwrap();
        if forall|i: int| 0 <= i < elements.len() ==> (#[trigger] variant_of(elements[i])) is Some {
            Some(elements.map_values(|item: serde_json::Value| variant_of(item).unwrap()))
        } else {
            None
        }
    } else {
        None
    }
}

/// The canonical grammar of one variant.
pub open spec fn grammar_of(variant: Variant) -> llguidance::api::TopLevelGrammar {
    match variant {
        Variant::Schema(schema) => schema_of(schema),
        Variant::Pattern(rx) => lark_of(anchored(rx)),
        Variant::Text(source) => lark_of(source),
    }
}

/// The variants that a text holds as a description, `None` where the text is
/// no JSON or the JSON is no description.
pub open spec fn described(raw: Seq<char>) -> Option<Seq<Variant>> {
    match document_of(raw) {
        Some(doc) => description_of(doc),
        None => None,
    }
}

/// Whether a text is taken as a description: it is one, and it is not empty.
pub open spec fn is_description(raw: Seq<char>) -> bool {
    described(raw) is Some && described(raw).unwrap().len() > 0
}

/// The outcome of normalizing a text: the grammar of the first variant of a
/// description that is not empty; else what the text gives in the engine's
/// own format, a failure carrying the parse error's message.
pub open spec fn normalized(raw: Seq<char>) -> Result<llguidance::api::TopLevelGrammar, Seq<char>> {
    if is_description(raw) {
        Ok(grammar_of(described(raw).unwrap()[0]))
    } else {
        match native_of(raw) {
            Ok(grammar) => Ok(grammar),
            Err(error) => Err(parse_prefix() + message_of(error)),
        }
    }
}

/// Whether the result of a normalization is the given outcome: the same
/// grammar, or a normalization error with the same message.
pub open spec fn agrees(
    result: Result<llguidance::api::TopLevelGrammar, SessionError>,
    outcome: Result<llguidance::api::TopLevelGrammar, Seq<char>>,
) -> bool {
    match result {
        Ok(grammar) => outcome == Ok::<llguidance::api::TopLevelGrammar, Seq<char>>(grammar),
        Err(error) => error.kind == ErrorKind::Normalization && outcome == Err::<
            llguidance::api::TopLevelGrammar,
            Seq<char>,
        >(error.message@),
    }
}

/// The grammar text for a regular expression.
pub fn anchor(rx: &str) -> (r: String)
    ensures
        r@ == anchored(rx@),
{
    let mut source = String::from_str("start: /");
    source.append(rx);
    source.append("/");
    source
}

/// Reads one element of `grammars`.
pub fn read_variant(item: &serde_json::Value) -> (r: Option<GrammarSpec>)
    ensures
        r matches Some(spec) ==> variant_of(*item) == Some(spec@),
        r is None ==> variant_of(*item) is None,
{
    if let Some(schema) = member(item, "json_schema") {
        return Some(GrammarSpec::JsonSchema { json_schema: duplicate(schema) });
    }
    if let Some(value) = member(item, "rx") {
        if let Some(rx) = text(value) {
            return Some(GrammarSpec::Regex { rx: String::from_str(rx) });
        }
    }
    if let Some(value) = member(item, "lark") {
        if let Some(lark) = text(value) {
            return Some(GrammarSpec::Lark { lark: String::from_str(lark) });
        }
    }
    None
}

/// Reads a parsed document as a description.
pub fn read_input(doc: &serde_json::Value) -> (r: Option<GrammarInput>)
    ensures
        r matches Some(input) ==> description_of(*doc) == Some(input@),
        r is None ==> description_of(*doc) is None,
{
    let list = match member(doc, "grammars") {
        Some(list) => list,
        None => {
            return None;
        },
    };
    let elements = match items(list) {
        Some(elements) => elements,
        None => {
            return None;
        },
    };
    let mut grammars: Vec<GrammarSpec> = Vec::new();
    let mut i: usize = 0;
    while i < elements.len()
        invariant
            member_of(*doc, "grammars"@) == Some(*list),
            items_of(*list) == Some(elements@),
            i <= elements.len(),
            grammars.len() == i,
            forall|j: int| 0 <= j < i ==> (#[trigger] variant_of(elements@[j])) == Some(grammars@[j]@),
        decreases elements.len() - i,
    {
        match read_variant(&elements[i]) {
            Some(spec) => {
                grammars.push(spec);
            },
            None => {
                assert(variant_of(elements@[i as int]) is None);
                return None;
            },
        }
        i += 1;
    }
    let input = GrammarInput { grammars };
    assert(input@ =~= elements@.map_values(|item: serde_json::Value| variant_of(item).unwrap()));
    Some(input)
}

/// The canonical grammar of a description: that of its first variant. An
/// empty description has none.
pub fn convert_grammar(input: &GrammarInput) -> (r: Result<
    llguidance::api::TopLevelGrammar,
    SessionError,
>)
    ensures
        input@.len() > 0 ==> r == Ok::<llguidance::api::TopLevelGrammar, SessionError>(
            grammar_of(input@[0]),
        ),
        input@.len() == 0 ==> (r matches Err(error) && error.kind == ErrorKind::Normalization
            && error.message@ == "No grammars provided"@),
{
    if input.grammars.len() == 0 {
        return Err(
            SessionError {
                kind: ErrorKind::Normalization,
                message: String::from_str("No grammars provided"),
            },
        );
    }
    match &input.grammars[0] {
        GrammarSpec::JsonSchema { json_schema } => Ok(grammar_from_schema(duplicate(json_schema))),
        GrammarSpec::Regex { rx } => Ok(grammar_from_lark(anchor(rx.as_str()))),
        GrammarSpec::Lark { lark } => Ok(grammar_from_lark(lark.clone())),
    }
}

/// Normalizes a grammar document.
pub fn parse_grammar(grammar_json: &str) -> (r: Result<
    llguidance::api::TopLevelGrammar,
    SessionError,
>)
    ensures
        agrees(r, normalized(grammar_json@)),
{
    if let Ok(doc) = parse_document(grammar_json) {
        if let Some(input) = read_input(&doc) {
            if input.grammars.len() > 0 {
                return convert_grammar(&input);
            }
        }
    }
    match grammar_from_native(grammar_json) {
        Ok(grammar) => Ok(grammar),
        Err(error) => Err(
            SessionError::with_detail(
                ErrorKind::Normalization,
                "Failed to parse grammar JSON: ",
                message(&error).as_str(),
            ),
        ),
    }
}

/// A description whose first variant is a regular expression normalizes to
/// the grammar of a description whose first variant is the grammar text
/// `start: /<expression>/`.
pub proof fn law_pattern_is_anchored_text(pattern_doc: Seq<char>, text_doc: Seq<char>, rx: Seq<char>)
    requires
        is_description(pattern_doc),
        described(pattern_doc).unwrap()[0] == Variant::Pattern(rx),
        is_description(text_doc),
        described(text_doc).unwrap()[0] == Variant::Text(anchored(rx)),
    ensures
        normalized(pattern_doc) == normalized(text_doc),
        normalized(pattern_doc) == Ok::<llguidance::api::TopLevelGrammar, Seq<char>>(
            lark_of(anchored(rx)),
        ),
{
}

/// Only the first variant of a description counts: two descriptions with the
/// same first variant normalize alike.
pub proof fn law_first_variant_wins(one: Seq<char>, other: Seq<char>)
    requires
        is_description(one),
        is_description(other),
        described(one).unwrap()[0] == described(other).unwrap()[0],
    ensures
        normalized(one) == normalized(other),
{
}

} // verus!
