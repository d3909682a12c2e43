//! The lexer that a module is parsed with.

use swc_core::common::input::SourceFileInput;
use swc_core::common::BytePos;
use swc_core::ecma::parser::lexer::Lexer;
use swc_core::ecma::parser::Syntax;
use swc_node_comments::SwcComments;
use vstd::prelude::*;

use crate::parse::{end_position, EsSyntax, EsVersion, ParseRequest};

verus! {

/// `swc_core::ecma::parser::lexer::Lexer`, a lexer over a text.
#[verifier::external_type_specification]
#[verifier::external_body]
pub struct ExLexer<'a>(Lexer<'a>);

/// `swc_node_comments::SwcComments`, the store that a lexer puts comments into.
#[verifier::external_type_specification]
#[verifier::external_body]
pub struct ExSwcComments(SwcComments);

/// What a lexer was made with: its text, its syntax, the version of the language, the
/// positions of the first byte and behind the last one, and the store for comments.
pub uninterp spec fn lexer_made_with(lexer: Lexer<'_>) -> (
    Seq<char>,
    EsSyntax,
    EsVersion,
    u32,
    u32,
    SwcComments,
);

/// Calls `swc_core::ecma::parser::lexer::Lexer::new` on an input that
/// `SourceFileInput::new` makes of the text and the positions. Trusted: the lexer that
/// comes back is made with these arguments, and nothing is read from its input yet. What
/// tokens it gives is left unsaid. The positions may not be reversed: the input would
/// panic on them.
#[verifier::external_body]
fn new_lexer<'a>(
    text: &'a str,
    syntax: EsSyntax,
    target: EsVersion,
    start: u32,
    end: u32,
    comments: &'a SwcComments,
) -> (r: Lexer<'a>)
    requires
        start <= end,
    ensures
        lexer_made_with(r) == (text@, syntax, target, start, end, *comments),
{
    let es_syntax = swc_core::ecma::parser::EsSyntax {
        jsx: syntax.jsx,
        allow_return_outside_function: syntax.allow_return_outside_function,
        explicit_resource_management: syntax.explicit_resource_management,
        import_attributes: syntax.import_attributes,
        ..Default::default()
    };
    let input = SourceFileInput::new(text, BytePos(start), BytePos(end));
    let version = match target {
        EsVersion::EsNext => swc_core::ecma::ast::EsVersion::EsNext,
    };
    Lexer::new(Syntax::Es(es_syntax), version, input, Some(comments))
}

impl<'a, T, O> ParseRequest<'a, T, O> {
    /// The lexer over the text that the request is made for.
    pub fn lexer(&self, comments: &'a SwcComments) -> (r: Lexer<'a>)
        requires
            self.start == 1,
            self.end == end_position(self.source),
        ensures
            lexer_made_with(r) == (
                self.source@,
                self.syntax,
                self.target,
                self.start,
                self.end,
                *comments,
            ),
    {
        new_lexer(self.source, self.syntax, self.target, self.start, self.end, comments)
    }
}

} // verus!
