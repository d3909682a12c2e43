//! What is done to a program between parsing it and scanning it.

use rustc_hash::FxHashSet;
use swc_core::ecma::ast::Program;
use swc_core::ecma::transforms::base::fixer::paren_remover;
use swc_core::ecma::visit::VisitMutWith;
use swc_node_comments::SwcComments;
use vstd::prelude::*;

verus! {

/// `swc_core::ecma::ast::Program`, the syntax tree of a module or of a script.
#[verifier::external_type_specification]
#[verifier::external_body]
pub struct ExProgram(Program);

/// What the visitor that `swc_core::ecma::transforms::base::fixer::paren_remover` gives
/// makes of a program, or nothing where the visitor panics on the program in some build.
pub uninterp spec fn parens_removed(program: Program) -> Option<Program>;

/// Visits a program with the visitor that
/// `swc_core::ecma::transforms::base::fixer::paren_remover` gives. Trusted: what it makes
/// of the program depends on the program alone: it moves the comments of removed
/// parentheses within the store, and no comment changes the program. What the store holds
/// afterwards is left unsaid, and so is what the new program looks like. Programs on which
/// the visitor panics are left out: in a build with debug assertions it does so on a
/// statement whose sequence of expressions it cuts down to one, such as
/// `1, void (1, 2), void (1, 2), x;`.
#[verifier::external_body]
fn visit_with_paren_remover(program: Program, comments: &SwcComments) -> (r: Program)
    requires
        parens_removed(program) is Some,
    ensures
        parens_removed(program) == Some(r),
{
    let mut program = program;
    program.visit_mut_with(&mut paren_remover(Some(comments)));
    program
}

/// Removes the parentheses around expressions.
pub fn remove_parens(program: Program, comments: &SwcComments) -> (r: Program)
    requires
        parens_removed(program) is Some,
    ensures
        parens_removed(program) == Some(r),
{
    visit_with_paren_remover(program, comments)
}

/// The steps of a transformation that only the host can take.
pub trait ProgramVisitors {
    type Tokens;

    /// Resolves the names in a program.
    fn resolve(&self, program: Program) -> Program;

    /// The positions at which the parser inserted semicolons.
    fn inserted_semicolons(
        &self,
        program: &Program,
        tokens: &Self::Tokens,
    ) -> FxHashSet<u32>;
}

/// Makes a parsed program ready for its scan: removes the parentheses, resolves the names
/// in what is left, and looks for inserted semicolons in that. The tokens must be there:
/// the parser was asked for them.
pub fn transform_program<V: ProgramVisitors>(
    visitors: &V,
    program: Program,
    comments: &SwcComments,
    tokens: Option<V::Tokens>,
) -> (r: (Program, FxHashSet<u32>))
    requires
        parens_removed(program) is Some,
        tokens is Some,
    ensures
        call_ensures(V::resolve, (visitors, parens_removed(program)->0), r.0),
        call_ensures(V::inserted_semicolons, (visitors, &r.0, &tokens->0), r.1),
{
    let program = remove_parens(program, comments);
    let program = visitors.resolve(program);
    let semicolons = visitors.inserted_semicolons(&program, &tokens.unwrap());
    (program, semicolons)
}

} // verus!
