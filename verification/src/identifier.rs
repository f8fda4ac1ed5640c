//! Finding a server-assigned identifier in the text of a tool-call result.
//!
//! The service embeds identifiers in prose: a diagram identifier follows
//! `diagram ID:` or `with ID:`, an entity identifier follows `ID:`, and both
//! are tokens of lower-case hexadecimal digits and hyphens. The search itself
//! is left to the `regex` crate.

use vstd::prelude::*;

verus! {

/// The textual conventions by which the service embeds an identifier.
#[derive(Debug, Clone, Copy, PartialEq, Eq, Structural)]
pub enum PatternKind {
    /// `diagram ID:` or `with ID:`, then the token.
    Diagram,
    /// Any `ID:`, then the token.
    Entity,
}

/// The regular expression for diagram identifiers.
pub const DIAGRAM_PATTERN: &'static str = "(?:diagram ID|with ID): ([a-f0-9\\-]+)";

/// The regular expression for entity identifiers.
pub const ENTITY_PATTERN: &'static str = "ID: ([a-f0-9\\-]+)";

/// The regular expression that stands for a kind of pattern.
pub open spec fn pattern_of(kind: PatternKind) -> Seq<char> {
    match kind {
        PatternKind::Diagram => DIAGRAM_PATTERN@,
        PatternKind::Entity => ENTITY_PATTERN@,
    }
}

/// What the `regex` crate finds for `pattern` in `text`: the text that capture
/// group 1 matched in the first match, or nothing where the pattern does not
/// compile, does not match, or matches without that group.
pub uninterp spec fn first_group_match(pattern: Seq<char>, text: Seq<char>) -> Option<Seq<char>>;

/// `piece` is a contiguous stretch of `text`.
pub open spec fn is_piece_of(piece: Seq<char>, text: Seq<char>) -> bool {
    exists|start: int, end: int|
        0 <= start <= end <= text.len() && piece == #[trigger] text.subrange(start, end)
}

/// The identifier that `text` carries under the convention `kind`.
pub open spec fn identifier_in(text: Seq<char>, kind: PatternKind) -> Option<Seq<char>> {
    first_group_match(pattern_of(kind), text)
}

/// The characters of an optional string.
pub open spec fn text_of(value: Option<String>) -> Option<Seq<char>> {
    match value {
        Some(text) => Some(text@),
        None => None,
    }
}

/// Compiles `pattern` with `regex::Regex::new`, searches `text` with
/// `Regex::captures` and copies out what `Captures::get(1)` matched
/// (`Match::as_str`).
///
/// Trusted: the result is the crate's answer for these two strings, which
/// depends on nothing else, and a match is a slice of the text searched.
#[verifier::external_body]
fn capture_first_group(pattern: &str, text: &str) -> (found: Option<String>)
    ensures
        text_of(found) == first_group_match(pattern@, text@),
        found matches Some(piece) ==> is_piece_of(piece@, text@),
{
    let expression = regex::Regex::new(pattern).ok()?;
    let captures = expression.captures(text)?;
    let group = captures.get(1)?;
    Some(group.as_str().to_string())
}

/// Searches `text` for the first identifier embedded under the convention
/// `kind`. Finding none is not an error: the caller decides what a missing
/// identifier means.
pub fn extract(text: &str, kind: PatternKind) -> (id: Option<String>)
    ensures
        text_of(id) == identifier_in(text@, kind),
        id matches Some(token) ==> is_piece_of(token@, text@),
{
    match kind {
        PatternKind::Diagram => capture_first_group(DIAGRAM_PATTERN, text),
        PatternKind::Entity => capture_first_group(ENTITY_PATTERN, text),
    }
}

/// The first diagram identifier in `text`: the token after `diagram ID: ` or
/// `with ID: `.
pub fn extract_diagram_id(text: &str) -> (id: Option<String>)
    ensures
        text_of(id) == identifier_in(text@, PatternKind::Diagram),
        id matches Some(token) ==> is_piece_of(token@, text@),
{
    extract(text, PatternKind::Diagram)
}

/// The first entity identifier in `text`: the token after `ID: `.
pub fn extract_node_id(text: &str) -> (id: Option<String>)
    ensures
        text_of(id) == identifier_in(text@, PatternKind::Entity),
        id matches Some(token) ==> is_piece_of(token@, text@),
{
    extract(text, PatternKind::Entity)
}

} // verus!
