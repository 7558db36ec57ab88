//! Options for the parser, and positions in source text.

use vstd::prelude::*;
use vstd::string::StringExecFns;

use crate::text::{decimal, decimal_string};

verus! {

/// How strictly a module is checked.
#[derive(Copy, Clone, PartialEq, Eq, Debug, Structural)]
pub enum Mode {
    /// No type checking or analysis is performed.
    NoCheck,
    /// Lenient type checking and analysis is performed.
    Nonstrict,
    /// Strict type checking and analysis is performed.
    Strict,
    /// Type definition module, with special parsing rules.
    Definition,
}

/// What the parser accepts and keeps.
#[derive(Copy, Clone, Debug)]
pub struct ParseOptions {
    allow_type_annotations: bool,
    support_continue_statement: bool,
    allow_declaration_syntax: bool,
    capture_comments: bool,
}

impl Default for ParseOptions {
    /// Type annotations and `continue` are accepted; declaration syntax is
    /// not; comments are not kept.
    fn default() -> (r: Self)
        ensures
            r.spec_allow_type_annotations(),
            r.spec_support_continue_statement(),
            !r.spec_allow_declaration_syntax(),
            !r.spec_capture_comments(),
    {
        ParseOptions {
            allow_type_annotations: true,
            support_continue_statement: true,
            allow_declaration_syntax: false,
            capture_comments: false,
        }
    }
}

impl ParseOptions {
    pub closed spec fn spec_allow_type_annotations(&self) -> bool {
        self.allow_type_annotations
    }

    pub closed spec fn spec_support_continue_statement(&self) -> bool {
        self.support_continue_statement
    }

    pub closed spec fn spec_allow_declaration_syntax(&self) -> bool {
        self.allow_declaration_syntax
    }

    pub closed spec fn spec_capture_comments(&self) -> bool {
        self.capture_comments
    }

    /// Sets whether type annotations are allowed.
    pub fn set_allow_type_annotations(&mut self, value: bool) -> (r: &mut Self)
        ensures
            r.spec_allow_type_annotations() == value,
            r.spec_support_continue_statement() == old(self).spec_support_continue_statement(),
            r.spec_allow_declaration_syntax() == old(self).spec_allow_declaration_syntax(),
            r.spec_capture_comments() == old(self).spec_capture_comments(),
            *final(self) == *final(r),
    {
        self.allow_type_annotations = value;
        self
    }

    /// Sets whether the `continue` statement is supported in loops.
    pub fn set_support_continue_statement(&mut self, value: bool) -> (r: &mut Self)
        ensures
            r.spec_support_continue_statement() == value,
            r.spec_allow_type_annotations() == old(self).spec_allow_type_annotations(),
            r.spec_allow_declaration_syntax() == old(self).spec_allow_declaration_syntax(),
            r.spec_capture_comments() == old(self).spec_capture_comments(),
            *final(self) == *final(r),
    {
        self.support_continue_statement = value;
        self
    }

    /// Sets whether the `declare` keyword, which declares the existence of a
    /// global function or variable, is accepted.
    pub fn set_allow_declaration_syntax(&mut self, value: bool) -> (r: &mut Self)
        ensures
            r.spec_allow_declaration_syntax() == value,
            r.spec_allow_type_annotations() == old(self).spec_allow_type_annotations(),
            r.spec_support_continue_statement() == old(self).spec_support_continue_statement(),
            r.spec_capture_comments() == old(self).spec_capture_comments(),
            *final(self) == *final(r),
    {
        self.allow_declaration_syntax = value;
        self
    }

    /// Sets whether comments are captured during parsing and kept in the
    /// parse result.
    pub fn set_capture_comments(&mut self, value: bool) -> (r: &mut Self)
        ensures
            r.spec_capture_comments() == value,
            r.spec_allow_type_annotations() == old(self).spec_allow_type_annotations(),
            r.spec_support_continue_statement() == old(self).spec_support_continue_statement(),
            r.spec_allow_declaration_syntax() == old(self).spec_allow_declaration_syntax(),
            *final(self) == *final(r),
    {
        self.capture_comments = value;
        self
    }

    #[verifier::when_used_as_spec(spec_allow_type_annotations)]
    pub fn allow_type_annotations(&self) -> (r: bool)
        ensures
            r == self.spec_allow_type_annotations(),
    {
        self.allow_type_annotations
    }

    #[verifier::when_used_as_spec(spec_support_continue_statement)]
    pub fn support_continue_statement(&self) -> (r: bool)
        ensures
            r == self.spec_support_continue_statement(),
    {
        self.support_continue_statement
    }

    #[verifier::when_used_as_spec(spec_allow_declaration_syntax)]
    pub fn allow_declaration_syntax(&self) -> (r: bool)
        ensures
            r == self.spec_allow_declaration_syntax(),
    {
        self.allow_declaration_syntax
    }

    #[verifier::when_used_as_spec(spec_capture_comments)]
    pub fn capture_comments(&self) -> (r: bool)
        ensures
            r == self.spec_capture_comments(),
    {
        self.capture_comments
    }
}

/// A position in source text.
#[derive(Copy, Clone, PartialEq, Eq, Debug, Structural)]
pub struct Position {
    pub line: u32,
    pub column: u32,
}

impl Position {
    /// The position as text: line and column in decimal, in parentheses,
    /// with a comma between them.
    pub open spec fn text(&self) -> Seq<char> {
        seq!['('] + decimal(self.line as nat) + seq![','] + decimal(self.column as nat) + seq![')']
    }

    /// The position as text, such as `(3,14)`.
    pub fn to_string(&self) -> (s: String)
        ensures
            s@ == self.text(),
    {
        proof {
            reveal_strlit("(");
            reveal_strlit(",");
            reveal_strlit(")");
        }
        let mut s = String::from_str("(");
        let line = decimal_string(self.line);
        s.append(line.as_str());
        s.append(",");
        let column = decimal_string(self.column);
        s.append(column.as_str());
        s.append(")");
        proof {
            assert("("@ =~= seq!['(']);
            assert(","@ =~= seq![',']);
            assert(")"@ =~= seq![')']);
        }
        s
    }
}

/// A span of source text, from one position (the start) to the next (the
/// end).
#[derive(Copy, Clone, PartialEq, Eq, Debug, Structural)]
pub struct Span(pub Position, pub Position);

impl Span {
    pub fn new(start_line: u32, start_column: u32, end_line: u32, end_column: u32) -> (r: Self)
        ensures
            r == Span(
                Position { line: start_line, column: start_column },
                Position { line: end_line, column: end_column },
            ),
    {
        Span(
            Position { line: start_line, column: start_column },
            Position { line: end_line, column: end_column },
        )
    }

    /// The span as text: its two positions with two dots between them.
    pub open spec fn text(&self) -> Seq<char> {
        self.0.text() + seq!['.', '.'] + self.1.text()
    }

    /// The span as text, such as `(1,0)..(1,5)`.
    pub fn to_string(&self) -> (s: String)
        ensures
            s@ == self.text(),
    {
        proof {
            reveal_strlit("..");
        }
        let mut s = self.0.to_string();
        s.append("..");
        let end = self.1.to_string();
        s.append(end.as_str());
        proof {
            assert(".."@ =~= seq!['.', '.']);
        }
        s
    }
}

} // verus!
