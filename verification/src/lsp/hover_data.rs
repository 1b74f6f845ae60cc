//! The documentation to show for the word under the cursor.

use vstd::prelude::*;
use vstd::string::*;
use crate::text::{join, joined};
use crate::types::option_text;

verus! {

/// Where an expression stands in its source, lines and columns counted
/// alike for both ends.
#[derive(Clone, Copy, Debug, PartialEq, Eq, Structural)]
pub struct Span {
    pub start_line: u32,
    pub start_column: u32,
    pub end_line: u32,
    pub end_column: u32,
}

/// What an expression is.
#[derive(Debug, PartialEq, Eq)]
pub enum ExpressionKind {
    /// A name.
    Atom(String),
    /// A list of expressions.
    List(Vec<SymbolicExpression>),
    /// Anything else: a literal, a reference to a trait, a field.
    Other,
}

/// An expression of a parsed contract.
#[derive(Debug, PartialEq, Eq)]
pub struct SymbolicExpression {
    pub span: Span,
    pub kind: ExpressionKind,
}

impl Span {
    /// Whether the span reaches over `line`.
    pub open spec fn covers_line(self, line: u32) -> bool {
        self.start_line <= line && self.end_line >= line
    }

    /// Whether the span reaches over `column`.
    pub open spec fn covers_column(self, column: u32) -> bool {
        self.start_column <= column && self.end_column >= column
    }

    /// Whether the span ends on a later line than it starts on.
    pub open spec fn is_multiline(self) -> bool {
        self.end_line > self.start_line
    }
}

/// The name at a position: that of the first expression of the list, from
/// `from` on, that decides. An expression over several lines around the
/// line decides by what it holds, if it is a list, and for no name else. An
/// expression on the line and around the column decides by its name, if it
/// is one, by what it holds, if it is a list, and for no name else. Other
/// expressions leave the decision to those after them.
pub open spec fn name_from(
    line: u32,
    column: u32,
    expressions: Seq<SymbolicExpression>,
    from: int,
) -> Option<Seq<char>>
    decreases expressions, expressions.len() - from,
{
    if from < 0 || from >= expressions.len() {
        None
    } else {
        let expression = expressions[from];
        if expression.span.covers_line(line) && expression.span.is_multiline() {
            match expression.kind {
                ExpressionKind::List(list) => name_from(line, column, list@, 0),
                _ => None,
            }
        } else if expression.span.covers_line(line) && expression.span.covers_column(column) {
            match expression.kind {
                ExpressionKind::Atom(name) => Some(name@),
                ExpressionKind::List(list) => name_from(line, column, list@, 0),
                ExpressionKind::Other => None,
            }
        } else {
            name_from(line, column, expressions, from + 1)
        }
    }
}

fn name_at_from(
    line: u32,
    column: u32,
    expressions: &Vec<SymbolicExpression>,
    from: usize,
) -> (r: Option<String>)
    ensures
        option_text(r) == name_from(line, column, expressions@, from as int),
    decreases expressions@, expressions@.len() - from,
{
    if from >= expressions.len() {
        return None;
    }
    let expression = &expressions[from];
    let span = expression.span;
    let on_line = span.start_line <= line && span.end_line >= line;
    if on_line && span.end_line > span.start_line {
        match &expression.kind {
            ExpressionKind::List(list) => name_at_from(line, column, list, 0),
            _ => None,
        }
    } else if on_line && span.start_column <= column && span.end_column >= column {
        match &expression.kind {
            ExpressionKind::Atom(name) => Some(name.clone()),
            ExpressionKind::List(list) => name_at_from(line, column, list, 0),
            ExpressionKind::Other => None,
        }
    } else {
        name_at_from(line, column, expressions, from + 1)
    }
}

/// Finds the name at a position of the source.
pub fn get_expression_name_at_position(
    line: u32,
    column: u32,
    expressions: &Vec<SymbolicExpression>,
) -> (r: Option<String>)
    ensures
        option_text(r) == name_from(line, column, expressions@, 0),
{
    name_at_from(line, column, expressions, 0)
}

/// Whether the character is white space: one of the twenty-five characters
/// that have the property `White_Space` in the Unicode character database.
pub open spec fn is_white_space(c: char) -> bool {
    let code = c as u32;
    ||| 0x0009 <= code <= 0x000D
    ||| code == 0x0020
    ||| code == 0x0085
    ||| code == 0x00A0
    ||| code == 0x1680
    ||| 0x2000 <= code <= 0x200A
    ||| code == 0x2028
    ||| code == 0x2029
    ||| code == 0x202F
    ||| code == 0x205F
    ||| code == 0x3000
}

/// The text from its first character on that is no white space.
pub open spec fn without_leading_white_space(s: Seq<char>) -> Seq<char>
    decreases s.len(),
{
    if s.len() > 0 && is_white_space(s.first()) {
        without_leading_white_space(s.drop_first())
    } else {
        s
    }
}

/// The text up to its last character that is no white space.
pub open spec fn without_trailing_white_space(s: Seq<char>) -> Seq<char>
    decreases s.len(),
{
    if s.len() > 0 && is_white_space(s.last()) {
        without_trailing_white_space(s.drop_last())
    } else {
        s
    }
}

/// The text without the white space at its ends.
pub open spec fn trimmed(s: Seq<char>) -> Seq<char> {
    without_trailing_white_space(without_leading_white_space(s))
}

/// The trimmed text is one piece of the text, with nothing but white space
/// before and after it, and it neither starts nor ends with white space.
pub proof fn lemma_trimmed_is_the_core(s: Seq<char>)
    ensures
        exists|from: int, to: int|
            {
                &&& 0 <= from <= to <= s.len()
                &&& #[trigger] s.subrange(from, to) == trimmed(s)
                &&& forall|i: int| 0 <= i < from ==> is_white_space(#[trigger] s[i])
                &&& forall|i: int| to <= i < s.len() ==> is_white_space(#[trigger] s[i])
            },
        trimmed(s).len() > 0 ==> !is_white_space(trimmed(s).first()) && !is_white_space(
            trimmed(s).last(),
        ),
{
    let from = lemma_leading_white_space(s);
    let middle = without_leading_white_space(s);
    let kept = lemma_trailing_white_space(middle);
    let to = from + kept;
    assert(s.subrange(from, to) == middle.subrange(0, kept));
    assert forall|i: int| to <= i < s.len() implies is_white_space(#[trigger] s[i]) by {
        assert(s[i] == middle[i - from]);
    }
    if trimmed(s).len() > 0 {
        assert(trimmed(s).first() == middle.first());
    }
}

/// The number of white-space characters that the text starts with: what
/// follows them is the text without its leading white space, which does not
/// start with white space.
proof fn lemma_leading_white_space(s: Seq<char>) -> (from: int)
    ensures
        0 <= from <= s.len(),
        without_leading_white_space(s) == s.subrange(from, s.len() as int),
        forall|i: int| 0 <= i < from ==> is_white_space(#[trigger] s[i]),
        from < s.len() ==> !is_white_space(s[from]),
    decreases s.len(),
{
    if s.len() > 0 && is_white_space(s.first()) {
        let rest = lemma_leading_white_space(s.drop_first());
        assert(s.drop_first().subrange(rest, s.len() - 1) == s.subrange(rest + 1, s.len() as int));
        assert forall|i: int| 0 <= i < rest + 1 implies is_white_space(#[trigger] s[i]) by {
            if i > 0 {
                assert(s[i] == s.drop_first()[i - 1]);
            }
        }
        rest + 1
    } else {
        assert(s.subrange(0, s.len() as int) == s);
        0
    }
}

/// The number of characters up to the last one that is no white space:
/// they are the text without its trailing white space, which does not end
/// with white space.
proof fn lemma_trailing_white_space(s: Seq<char>) -> (to: int)
    ensures
        0 <= to <= s.len(),
        without_trailing_white_space(s) == s.subrange(0, to),
        forall|i: int| to <= i < s.len() ==> is_white_space(#[trigger] s[i]),
        to > 0 ==> !is_white_space(s[to - 1]),
    decreases s.len(),
{
    if s.len() > 0 && is_white_space(s.last()) {
        let to = lemma_trailing_white_space(s.drop_last());
        assert(s.drop_last().subrange(0, to) == s.subrange(0, to));
        assert forall|i: int| to <= i < s.len() implies is_white_space(#[trigger] s[i]) by {
            if i < s.len() - 1 {
                assert(s[i] == s.drop_last()[i]);
            }
        }
        to
    } else {
        assert(s.subrange(0, s.len() as int) == s);
        s.len() as int
    }
}

/// Calls `str::trim`, which gives the part of the text between its leading
/// and its trailing white space; white space is what `char::is_whitespace`
/// takes for it, the characters with the Unicode property `White_Space`. Not
/// proved here: that the result is [`trimmed`] of the text.
#[verifier::external_body]
fn trim(s: &str) -> (r: &str)
    ensures
        r@ == trimmed(s@),
{
    s.trim()
}

/// A piece of source, fenced as a block of the contract language.
pub open spec fn fenced(source: Seq<char>) -> Seq<char> {
    "```clarity\n"@ + source + "\n```"@
}

/// Fences a trimmed piece of source as a block of the contract language.
pub fn fence(source: &str) -> (r: String)
    ensures
        r@ == fenced(source@),
{
    let mut block = String::from_str("```clarity\n");
    block.append(source);
    block.append("\n```");
    block
}

/// Trims a piece of source and fences it as a block of the contract
/// language.
pub fn code(source: &str) -> (r: String)
    ensures
        r@ == fenced(trimmed(source@)),
{
    fence(trim(source))
}

/// What the reference of the language says of a function or a keyword.
#[derive(Clone, Debug, PartialEq, Eq)]
pub struct Reference {
    /// The version of the language that brought it.
    pub version: String,
    pub signature: String,
    pub description: String,
    pub example: String,
}

/// The lines of a documentation, one after another.
pub open spec fn lines(parts: Seq<Seq<char>>) -> Seq<char> {
    joined(parts, "\n"@)
}

/// What is shown for a function that defines something.
pub open spec fn define_documentation_of(reference: Reference) -> Seq<char> {
    lines(
        seq![
            fenced(trimmed(reference.signature@)),
            "---"@,
            "**Description**"@,
            reference.description@,
            "---"@,
            "**Example**"@,
            fenced(trimmed(reference.example@)),
        ],
    )
}

/// What is shown for a function of the language.
pub open spec fn native_documentation_of(reference: Reference) -> Seq<char> {
    lines(
        seq![
            fenced(trimmed(reference.signature@)),
            "---"@,
            "**Description**"@,
            reference.description@,
            "---"@,
            "**Example**"@,
            fenced(trimmed(reference.example@)),
            "---"@,
            "**Introduced in:** "@ + reference.version@,
        ],
    )
}

/// What is shown for a keyword of the language.
pub open spec fn keyword_documentation_of(reference: Reference) -> Seq<char> {
    lines(
        seq![
            "**Description**"@,
            reference.description@,
            "---"@,
            "**Example**"@,
            fenced(trimmed(reference.example@)),
            "**Introduced in:** "@ + reference.version@,
        ],
    )
}

fn introduced_in(version: &str) -> (r: String)
    ensures
        r@ == "**Introduced in:** "@ + version@,
{
    let mut line = String::from_str("**Introduced in:** ");
    line.append(version);
    line
}

/// Writes what is shown for a function that defines something.
pub fn define_documentation(reference: &Reference) -> (r: String)
    ensures
        r@ == define_documentation_of(*reference),
{
    let mut parts: Vec<String> = Vec::new();
    parts.push(code(reference.signature.as_str()));
    parts.push(String::from_str("---"));
    parts.push(String::from_str("**Description**"));
    parts.push(reference.description.clone());
    parts.push(String::from_str("---"));
    parts.push(String::from_str("**Example**"));
    parts.push(code(reference.example.as_str()));
    assert(parts@.map_values(|s: String| s@) == seq![
        fenced(trimmed(reference.signature@)),
        "---"@,
        "**Description**"@,
        reference.description@,
        "---"@,
        "**Example**"@,
        fenced(trimmed(reference.example@)),
    ]);
    join(&parts, "\n")
}

/// Writes what is shown for a function of the language.
pub fn native_documentation(reference: &Reference) -> (r: String)
    ensures
        r@ == native_documentation_of(*reference),
{
    let mut parts: Vec<String> = Vec::new();
    parts.push(code(reference.signature.as_str()));
    parts.push(String::from_str("---"));
    parts.push(String::from_str("**Description**"));
    parts.push(reference.description.clone());
    parts.push(String::from_str("---"));
    parts.push(String::from_str("**Example**"));
    parts.push(code(reference.example.as_str()));
    parts.push(String::from_str("---"));
    parts.push(introduced_in(reference.version.as_str()));
    assert(parts@.map_values(|s: String| s@) == seq![
        fenced(trimmed(reference.signature@)),
        "---"@,
        "**Description**"@,
        reference.description@,
        "---"@,
        "**Example**"@,
        fenced(trimmed(reference.example@)),
        "---"@,
        "**Introduced in:** "@ + reference.version@,
    ]);
    join(&parts, "\n")
}

/// Writes what is shown for a keyword of the language.
pub fn keyword_documentation(reference: &Reference) -> (r: String)
    ensures
        r@ == keyword_documentation_of(*reference),
{
    let mut parts: Vec<String> = Vec::new();
    parts.push(String::from_str("**Description**"));
    parts.push(reference.description.clone());
    parts.push(String::from_str("---"));
    parts.push(String::from_str("**Example**"));
    parts.push(code(reference.example.as_str()));
    parts.push(introduced_in(reference.version.as_str()));
    assert(parts@.map_values(|s: String| s@) == seq![
        "**Description**"@,
        reference.description@,
        "---"@,
        "**Example**"@,
        fenced(trimmed(reference.example@)),
        "**Introduced in:** "@ + reference.version@,
    ]);
    join(&parts, "\n")
}

/// What is shown for one name in one version of the language.
#[derive(Clone, Debug, PartialEq, Eq)]
pub struct ApiEntry {
    pub version: String,
    pub name: String,
    pub documentation: String,
}

/// What the entries show for `name` in `version`: the last entry for both
/// stands.
pub open spec fn documentation_of(
    entries: Seq<ApiEntry>,
    version: Seq<char>,
    name: Seq<char>,
) -> Option<Seq<char>>
    decreases entries.len(),
{
    if entries.len() == 0 {
        None
    } else if entries.last().version@ == version && entries.last().name@ == name {
        Some(entries.last().documentation@)
    } else {
        documentation_of(entries.drop_last(), version, name)
    }
}

/// Looks up what is shown for a name in a version of the language.
pub fn find_documentation(entries: &Vec<ApiEntry>, version: &String, name: &String) -> (r: Option<
    String,
>)
    ensures
        option_text(r) == documentation_of(entries@, version@, name@),
{
    let mut i: usize = entries.len();
    assert(entries@.take(i as int) == entries@);
    while i > 0
        invariant
            i <= entries.len(),
            documentation_of(entries@, version@, name@) == documentation_of(
                entries@.take(i as int),
                version@,
                name@,
            ),
        decreases i,
    {
        proof {
            assert(entries@.take(i as int).last() == entries@[i - 1]);
            assert(entries@.take(i as int).drop_last() == entries@.take(i - 1));
        }
        i -= 1;
        if entries[i].version == *version && entries[i].name == *name {
            return Some(entries[i].documentation.clone());
        }
    }
    None
}

/// The documentation of the name at a position of the source, in a
/// version of the language.
pub fn get_expression_documentation(
    line: u32,
    column: u32,
    clarity_version: &String,
    expressions: &Vec<SymbolicExpression>,
    api_reference: &Vec<ApiEntry>,
) -> (r: Option<String>)
    ensures
        option_text(r) == match name_from(line, column, expressions@, 0) {
            Some(name) => documentation_of(api_reference@, clarity_version@, name),
            None => None,
        },
{
    match get_expression_name_at_position(line, column, expressions) {
        Some(name) => find_documentation(api_reference, clarity_version, &name),
        None => None,
    }
}

} // verus!
