//! The kinds of syntax error wrapped by `Error`.

use crate::position::{
    byte_len, char_at, is_char_start, lemma_split_at_boundary, lemma_text_from_char_start,
    nth_char, split_at_char_start, text_before, text_from, utf8_of,
};
use vstd::prelude::*;
use vstd::string::{StrSliceExecFns, StringExecFns};
use vstd::utf8::is_char_boundary;

verus! {

/// A line split at byte offset `index`, with the marker `{here}` between the halves.
pub open spec fn marked(line: Seq<char>, index: int) -> Seq<char> {
    text_before(line, index) + "{here}"@ + text_from(line, index)
}

/// The characters of `line` that follow the one starting at byte offset `index`.
pub open spec fn text_after_char(line: Seq<char>, index: int) -> Seq<char> {
    text_from(line, index).drop_first()
}

/// `head` followed by `line` split at byte offset `index` around the marker.
fn render_marked(head: String, line: &str, index: usize) -> (r: String)
    requires
        is_char_boundary(utf8_of(line@), index as int),
    ensures
        r@ == head@ + marked(line@, index as int),
{
    let (before, from) = split_at_char_start(line, index);
    let mut r = head;
    r.append(before);
    r.append("{here}");
    r.append(from);
    assert(r@ =~= head@ + marked(line@, index as int));
    r
}

/// An `ExpectedIdentifier` for `line` and a character start `index` renders
/// `line` cut exactly at byte offset `index`, with the marker at the cut.
pub proof fn law_expected_identifier_marks_index(e: ExpectedIdentifier, line: Seq<char>, index: int)
    requires
        e.line() == line,
        e.index() == index,
        is_char_start(line, index),
    ensures
        exists|before: Seq<char>, after: Seq<char>|
            {
                &&& before + after == line
                &&& byte_len(before) == index
                &&& e.text() == "Expected identifier "@ + before + "{here}"@ + after
            },
{
    let before = text_before(line, index);
    let after = text_from(line, index);
    lemma_split_at_boundary(line, index);
    assert(e.text() == "Expected identifier "@ + before + "{here}"@ + after);
}

/// No byte offset at or past the end of a line starts a character: there every
/// constructor that takes an index is refused, both those asking for an index
/// below the byte length and those asking for a character start.
pub proof fn law_index_past_end(line: Seq<char>, index: int)
    requires
        index >= byte_len(line),
    ensures
        !is_char_start(line, index),
{
}

/// An identifier was expected at a byte offset of a line.
#[derive(Debug)]
pub struct ExpectedIdentifier {
    index: usize,
    line: String,
}

impl ExpectedIdentifier {
    /// The line in which the error occurred.
    pub closed spec fn line(&self) -> Seq<char> {
        self.line@
    }

    /// The byte offset at which an identifier was expected.
    pub closed spec fn index(&self) -> int {
        self.index as int
    }

    #[verifier::type_invariant]
    closed spec fn inv(&self) -> bool {
        self.index < byte_len(self.line@)
    }

    /// Creates the error for `line`, complete, where an identifier was expected
    /// at byte offset `index`.
    pub fn new(line: String, index: usize) -> (r: ExpectedIdentifier)
        requires
            index < byte_len(line@),
        ensures
            r.line() == line@,
            r.index() == index,
    {
        ExpectedIdentifier { line, index }
    }

    /// The diagnostic text.
    pub open spec fn text(&self) -> Seq<char> {
        "Expected identifier "@ + marked(self.line(), self.index())
    }

    /// Whether the index falls on a character boundary, so that the error can
    /// be rendered.
    pub fn is_renderable(&self) -> (r: bool)
        ensures
            r == is_char_start(self.line(), self.index()),
    {
        proof {
            use_type_invariant(self);
        }
        self.line.as_str().is_char_boundary(self.index)
    }

    /// Renders the diagnostic; the index must fall on a character boundary.
    pub fn to_string(&self) -> (r: String)
        requires
            is_char_start(self.line(), self.index()),
        ensures
            r@ == self.text(),
    {
        render_marked("Expected identifier ".to_owned(), self.line.as_str(), self.index)
    }
}

/// One of some tokens was expected at a byte offset of a line.
#[derive(Debug)]
pub struct ExpectedToken {
    index: usize,
    line: String,
    tokens: String,
}

impl ExpectedToken {
    /// The line in which the error occurred.
    pub closed spec fn line(&self) -> Seq<char> {
        self.line@
    }

    /// The byte offset at which a token was expected.
    pub closed spec fn index(&self) -> int {
        self.index as int
    }

    /// The description of the expected tokens, shown as it is.
    pub closed spec fn tokens(&self) -> Seq<char> {
        self.tokens@
    }

    #[verifier::type_invariant]
    closed spec fn inv(&self) -> bool {
        self.index < byte_len(self.line@)
    }

    /// Creates the error for `line`, complete, where one of `tokens` was
    /// expected at byte offset `index`.
    pub fn new(line: String, index: usize, tokens: String) -> (r: ExpectedToken)
        requires
            index < byte_len(line@),
        ensures
            r.line() == line@,
            r.index() == index,
            r.tokens() == tokens@,
    {
        ExpectedToken { line, index, tokens }
    }

    /// The diagnostic text.
    pub open spec fn text(&self) -> Seq<char> {
        "Expected "@ + self.tokens() + " "@ + marked(self.line(), self.index())
    }

    /// Whether the index falls on a character boundary, so that the error can
    /// be rendered.
    pub fn is_renderable(&self) -> (r: bool)
        ensures
            r == is_char_start(self.line(), self.index()),
    {
        proof {
            use_type_invariant(self);
        }
        self.line.as_str().is_char_boundary(self.index)
    }

    /// Renders the diagnostic; the index must fall on a character boundary.
    pub fn to_string(&self) -> (r: String)
        requires
            is_char_start(self.line(), self.index()),
        ensures
            r@ == self.text(),
    {
        let mut head = "Expected ".to_owned();
        head.append(self.tokens.as_str());
        head.append(" ");
        render_marked(head, self.line.as_str(), self.index)
    }
}

/// An escape sequence was expected in place of the character at a byte offset
/// of a line.
#[derive(Debug)]
pub struct ExpectedEscape {
    index: usize,
    line: String,
    replace: String,
    token: char,
}

impl ExpectedEscape {
    /// The line in which the error occurred.
    pub closed spec fn line(&self) -> Seq<char> {
        self.line@
    }

    /// The byte offset of the character that should have been escaped.
    pub closed spec fn index(&self) -> int {
        self.index as int
    }

    /// The escape sequence to write instead.
    pub closed spec fn replace(&self) -> Seq<char> {
        self.replace@
    }

    /// The character found at the index.
    pub closed spec fn token(&self) -> char {
        self.token
    }

    #[verifier::type_invariant]
    closed spec fn inv(&self) -> bool {
        &&& is_char_start(self.line@, self.index as int)
        &&& self.token == char_at(self.line@, self.index as int)
    }

    /// Creates the error for `line`, where the character starting at byte
    /// offset `index` should have been written as the escape sequence `replace`.
    pub fn new(line: String, index: usize, replace: String) -> (r: ExpectedEscape)
        requires
            is_char_start(line@, index as int),
        ensures
            r.line() == line@,
            r.index() == index,
            r.replace() == replace@,
            r.token() == char_at(line@, index as int),
    {
        let token = nth_char(line.as_str(), index);
        ExpectedEscape { index, line, replace, token }
    }

    /// The diagnostic text.
    pub open spec fn text(&self) -> Seq<char> {
        "Expected escape sequence "@ + self.replace() + " instead of "@ + seq![self.token()]
            + " in "@ + text_before(self.line(), self.index()) + "{here}"@ + text_after_char(
            self.line(),
            self.index(),
        )
    }

    /// Renders the diagnostic.
    pub fn to_string(&self) -> (r: String)
        ensures
            r@ == self.text(),
    {
        proof {
            use_type_invariant(self);
            lemma_text_from_char_start(self.line@, self.index as int);
        }
        let (before, from) = split_at_char_start(self.line.as_str(), self.index);
        let token = from.substring_char(0, 1);
        let after = from.substring_char(1, from.unicode_len());
        let mut r = "Expected escape sequence ".to_owned();
        r.append(self.replace.as_str());
        r.append(" instead of ");
        r.append(token);
        r.append(" in ");
        r.append(before);
        r.append("{here}");
        r.append(after);
        assert(token@ =~= seq![self.token]);
        assert(after@ =~= text_after_char(self.line@, self.index as int));
        assert(r@ =~= self.text());
        r
    }
}

/// A character that no token can start with was found at a byte offset of a line.
#[derive(Debug)]
pub struct UnexpectedToken {
    index: usize,
    line: String,
    token: char,
}

impl UnexpectedToken {
    /// The line in which the error occurred.
    pub closed spec fn line(&self) -> Seq<char> {
        self.line@
    }

    /// The byte offset of the unexpected character.
    pub closed spec fn index(&self) -> int {
        self.index as int
    }

    /// The character found at the index.
    pub closed spec fn token(&self) -> char {
        self.token
    }

    #[verifier::type_invariant]
    closed spec fn inv(&self) -> bool {
        &&& is_char_start(self.line@, self.index as int)
        &&& self.token == char_at(self.line@, self.index as int)
    }

    /// Creates the error for `line`, where the character starting at byte
    /// offset `index` was not expected.
    pub fn new(line: String, index: usize) -> (r: UnexpectedToken)
        requires
            is_char_start(line@, index as int),
        ensures
            r.line() == line@,
            r.index() == index,
            r.token() == char_at(line@, index as int),
    {
        let token = nth_char(line.as_str(), index);
        UnexpectedToken { index, token, line }
    }

    /// The diagnostic text: the line is cut at the index.
    pub open spec fn text(&self) -> Seq<char> {
        "Unexpected token "@ + seq![self.token()] + " "@ + text_before(self.line(), self.index())
            + "{here}"@
    }

    /// Renders the diagnostic.
    pub fn to_string(&self) -> (r: String)
        ensures
            r@ == self.text(),
    {
        proof {
            use_type_invariant(self);
            lemma_text_from_char_start(self.line@, self.index as int);
        }
        let (before, from) = split_at_char_start(self.line.as_str(), self.index);
        let token = from.substring_char(0, 1);
        let mut r = "Unexpected token ".to_owned();
        r.append(token);
        r.append(" ");
        r.append(before);
        r.append("{here}");
        assert(token@ =~= seq![self.token]);
        assert(r@ =~= self.text());
        r
    }
}

/// `part` occurs in `s` as a run of consecutive characters.
pub open spec fn occurs_in(part: Seq<char>, s: Seq<char>) -> bool {
    exists|i: int| 0 <= i && i + part.len() <= s.len() && #[trigger] s.subrange(i, i + part.len()) == part
}

/// An escape sequence that the language does not define was found in a line.
#[derive(Debug)]
pub struct InvalidEscape {
    line: String,
    escape: String,
}

impl InvalidEscape {
    /// The line in which the error occurred.
    pub closed spec fn line(&self) -> Seq<char> {
        self.line@
    }

    /// The invalid escape sequence.
    pub closed spec fn escape(&self) -> Seq<char> {
        self.escape@
    }

    #[verifier::type_invariant]
    closed spec fn inv(&self) -> bool {
        occurs_in(self.escape@, self.line@)
    }

    /// Creates the error for the escape sequence `escape`, found in `line`.
    pub fn new(line: String, escape: String) -> (r: InvalidEscape)
        requires
            occurs_in(escape@, line@),
        ensures
            r.line() == line@,
            r.escape() == escape@,
    {
        InvalidEscape { line, escape }
    }

    /// The diagnostic text.
    pub open spec fn text(&self) -> Seq<char> {
        "Invalid escape sequence "@ + self.escape() + " in "@ + self.line()
    }

    /// Renders the diagnostic.
    pub fn to_string(&self) -> (r: String)
        ensures
            r@ == self.text(),
    {
        let mut r = "Invalid escape sequence ".to_owned();
        r.append(self.escape.as_str());
        r.append(" in ");
        r.append(self.line.as_str());
        r
    }
}

/// A word that breaks the rule for identifiers was found in a line.
#[derive(Debug)]
pub struct InvalidIdentifier {
    line: String,
    ident: String,
}

impl InvalidIdentifier {
    /// The line in which the error occurred.
    pub closed spec fn line(&self) -> Seq<char> {
        self.line@
    }

    /// The invalid identifier.
    pub closed spec fn ident(&self) -> Seq<char> {
        self.ident@
    }

    #[verifier::type_invariant]
    closed spec fn inv(&self) -> bool {
        occurs_in(self.ident@, self.line@)
    }

    /// Creates the error for `identifier`, found in `line`.
    ///
    /// `is_valid` is the scanner's rule for identifiers: `identifier` must be
    /// one that it rejects.
    #[allow(unused_variables)]
    pub fn new<F: Fn(&String) -> bool>(line: String, identifier: String, is_valid: F) -> (r:
        InvalidIdentifier)
        requires
            occurs_in(identifier@, line@),
            forall|valid: bool| #[trigger] is_valid.ensures((&identifier,), valid) ==> !valid,
        ensures
            r.line() == line@,
            r.ident() == identifier@,
    {
        InvalidIdentifier { line, ident: identifier }
    }

    /// The diagnostic text.
    pub open spec fn text(&self) -> Seq<char> {
        "Invalid identifier "@ + self.ident() + " in "@ + self.line()
    }

    /// Renders the diagnostic.
    pub fn to_string(&self) -> (r: String)
        ensures
            r@ == self.text(),
    {
        let mut r = "Invalid identifier ".to_owned();
        r.append(self.ident.as_str());
        r.append(" in ");
        r.append(self.line.as_str());
        r
    }
}

} // verus!
