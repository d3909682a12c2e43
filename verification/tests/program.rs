use rspack_plugin_javascript::program::{remove_parens, transform_program, ProgramVisitors};
use rustc_hash::FxHashSet;
use swc_core::common::input::SourceFileInput;
use swc_core::common::BytePos;
use swc_core::ecma::ast::{EsVersion, Expr, Program, Stmt};
use swc_core::ecma::parser::lexer::Lexer;
use swc_core::ecma::parser::{Parser, Syntax};
use swc_node_comments::SwcComments;

fn parse(text: &str, comments: &SwcComments) -> Program {
    let input = SourceFileInput::new(text, BytePos(1), BytePos(text.len() as u32 + 1));
    let lexer = Lexer::new(Syntax::default(), EsVersion::EsNext, input, Some(comments));
    Program::Script(Parser::new_from(lexer).parse_script().ok().unwrap())
}

/// The expression that the only statement of a script holds.
fn expression(program: &Program) -> &Expr {
    match program {
        Program::Script(script) => match &script.body[0] {
            Stmt::Expr(statement) => &statement.expr,
            _ => panic!("the statement should be an expression"),
        },
        Program::Module(_) => panic!("the program should be a script"),
    }
}

/// Counts statements: resolving adds a copy of the first one, and the semicolons are the
/// number of statements and the token.
struct Visitors;

impl ProgramVisitors for Visitors {
    type Tokens = u32;

    fn resolve(&self, program: Program) -> Program {
        assert!(!matches!(expression(&program), Expr::Paren(_)));
        match program {
            Program::Script(mut script) => {
                let first = script.body[0].clone();
                script.body.push(first);
                Program::Script(script)
            }
            Program::Module(_) => panic!("the program should be a script"),
        }
    }

    fn inserted_semicolons(&self, program: &Program, tokens: &u32) -> FxHashSet<u32> {
        match program {
            Program::Script(script) => FxHashSet::from_iter([script.body.len() as u32, *tokens]),
            Program::Module(_) => FxHashSet::default(),
        }
    }
}

#[test]
fn parentheses_are_removed() {
    let comments = SwcComments::default();
    let program = parse("((a));", &comments);
    assert!(matches!(expression(&program), Expr::Paren(_)));
    let program = remove_parens(program, &comments);
    assert!(matches!(expression(&program), Expr::Ident(_)));
}

#[test]
fn a_program_without_parentheses_stays() {
    let comments = SwcComments::default();
    let program = parse("a + b * c;", &comments);
    assert_eq!(remove_parens(program.clone(), &comments), program);
}

#[test]
fn the_comments_do_not_matter_to_the_tree() {
    let text = "(/* note */ (a + b)) * c;";
    let comments = SwcComments::default();
    let program = parse(text, &comments);
    let with_comments = remove_parens(program.clone(), &comments);
    let without_comments = remove_parens(program, &SwcComments::default());
    assert_eq!(with_comments, without_comments);
}

#[test]
fn a_program_is_resolved_without_parentheses_and_searched_after_that() {
    let comments = SwcComments::default();
    let (program, semicolons) =
        transform_program(&Visitors, parse("(a);", &comments), &comments, Some(40));
    assert!(matches!(expression(&program), Expr::Ident(_)));
    assert_eq!(semicolons, FxHashSet::from_iter([2, 40]));
}
