//! Scanning a program for its dependencies.

use std::sync::Arc;

use rustc_hash::FxHashSet;
use vstd::prelude::*;

use crate::builtin_plugins::worker_known;
use crate::module_type::ModuleType;
use crate::options::{CompilerOptions, JavascriptParserOptions};
use crate::parse_meta::{ParseMeta, ParseMetaValue};
use crate::parser::{hooks_asked, JavaScriptParser, JavascriptParserHooks, JavascriptParserPlugin};
use crate::runtime_requirements::ParserRuntimeRequirementsData;

verus! {

/// What building a module found out about it. `T` is the type of what was collected
/// from its TypeScript source.
pub struct BuildInfo<T> {
    pub collected_typescript_info: Option<T>,
    pub inline_exports: bool,
}

/// What building a module found out about its shape.
#[derive(Clone, Copy, Debug, PartialEq, Eq, Structural)]
pub struct BuildMeta {
    pub side_effect_free: Option<bool>,
}

/// The records of a build. `X` is the type of what only the host reads.
pub struct ModuleBuild<T, X> {
    pub build_info: BuildInfo<T>,
    pub build_meta: BuildMeta,
    pub rest: X,
}

/// A statement with a side effect: where it is, if that is known, and what it is.
pub struct SideEffectsBailoutItemWithSpan {
    pub loc: Option<String>,
    pub ty: String,
}

/// What a scan found. `D`, `B` and `P` are the types of dependencies, of blocks and of
/// presentational dependencies, `E` is that of diagnostics.
pub struct ScanDependenciesResult<D, B, P, E> {
    pub dependencies: Vec<D>,
    pub blocks: Vec<B>,
    pub presentational_dependencies: Vec<P>,
    pub warning_diagnostics: Vec<E>,
    pub side_effects_item: Option<SideEffectsBailoutItemWithSpan>,
}

/// A program: its syntax tree, and its comments, if they were kept. `C` is the type of
/// comments and `G` that of syntax trees.
pub struct CommentedProgram<C, G> {
    pub comments: Option<C>,
    pub program: G,
}

/// What is left of a walk: what it found, or why it failed, the records of the build, and
/// the positions of inserted semicolons.
pub struct ScanResults<D, B, P, E, T, X> {
    pub outcome: Result<ScanDependenciesResult<D, B, P, E>, Vec<E>>,
    pub build: ModuleBuild<T, X>,
    pub semicolons: FxHashSet<u32>,
}

/// What is left of a walk by a state of type `S`.
pub type ResultsOf<S> = ScanResults<
    <S as JavascriptParserState>::Dependency,
    <S as JavascriptParserState>::Block,
    <S as JavascriptParserState>::PresentationalDependency,
    <S as JavascriptParserState>::Diagnostic,
    <S as JavascriptParserState>::TypeScriptInfo,
    <S as JavascriptParserState>::BuildRest,
>;

/// The parse meta that a state of type `S` reads.
pub type ParseMetaOf<S> = ParseMeta<
    ParseMetaValue<
        <S as JavascriptParserState>::TypeScriptInfo,
        <S as JavascriptParserState>::OtherMeta,
    >,
>;

/// The records of a build that a state of type `S` takes over.
pub type BuildOf<S> = ModuleBuild<
    <S as JavascriptParserState>::TypeScriptInfo,
    <S as JavascriptParserState>::BuildRest,
>;

/// The program that a state of type `S` walks.
pub type ProgramOf<S> = CommentedProgram<
    <S as JavascriptParserState>::Comments,
    <S as JavascriptParserState>::InnerProgram,
>;

/// The state of a parser that walks a program.
pub trait JavascriptParserState: Sized {
    /// What the walk reads that the host alone knows: the resource, the module's layer and
    /// identifier, the factory's record of the module, and the mark of names that were not
    /// resolved.
    type Input;

    type Comments;

    /// The syntax tree of a program.
    type InnerProgram;

    type Hooks: JavascriptParserHooks;

    type Dependency;

    type Block;

    type PresentationalDependency;

    type Diagnostic;

    type TypeScriptInfo;

    /// What only the host reads of a parse meta.
    type OtherMeta;

    /// What only the host reads of the records of a build.
    type BuildRest;

    /// The state before the walk. It takes over the comments, the records of the build,
    /// the positions of inserted semicolons and the parse meta.
    fn new(
        input: Self::Input,
        source: &str,
        compiler_options: &CompilerOptions,
        javascript_options: &JavascriptParserOptions,
        comments: Option<Self::Comments>,
        module_type: &ModuleType,
        build: BuildOf<Self>,
        semicolons: FxHashSet<u32>,
        parse_meta: ParseMetaOf<Self>,
        parser_runtime_requirements: &ParserRuntimeRequirementsData,
        hooks: Arc<Self::Hooks>,
    ) -> Self;

    /// Walks the syntax tree of a program.
    fn walk_program(self, program: &Self::InnerProgram) -> Self;

    /// What is left of the walk.
    fn into_results(self) -> ResultsOf<Self>;
}

/// A state that was made for a program and walked it can end with these results.
pub open spec fn scanned<S: JavascriptParserState>(
    input: S::Input,
    source: &str,
    program: ProgramOf<S>,
    compiler_options: CompilerOptions,
    javascript_options: JavascriptParserOptions,
    module_type: ModuleType,
    build: BuildOf<S>,
    semicolons: FxHashSet<u32>,
    parse_meta: ParseMetaOf<S>,
    requirements: ParserRuntimeRequirementsData,
    hooks: Arc<S::Hooks>,
    results: ResultsOf<S>,
) -> bool {
    exists|start: S, end: S|
        {
            &&& call_ensures(
                S::new,
                (
                    input,
                    source,
                    &compiler_options,
                    &javascript_options,
                    program.comments,
                    &module_type,
                    build,
                    semicolons,
                    parse_meta,
                    &requirements,
                    hooks,
                ),
                start,
            )
            &&& #[trigger] call_ensures(S::walk_program, (start, &program.program), end)
            &&& call_ensures(S::into_results, (end,), results)
        }
}

/// Scans a program: asks the parser for its hooks, and walks the program with them. The
/// state that walks has comments exactly if the program has them, and the positions of
/// inserted semicolons come back as the walk left them.
pub fn scan_dependencies<P: JavascriptParserPlugin<S::Hooks>, S: JavascriptParserState>(
    input: S::Input,
    source: &str,
    program: ProgramOf<S>,
    compiler_options: &CompilerOptions,
    javascript_options: &JavascriptParserOptions,
    module_type: &ModuleType,
    build: BuildOf<S>,
    semicolons: FxHashSet<u32>,
    parser: &mut JavaScriptParser<P, S::Hooks>,
    parse_meta: ParseMetaOf<S>,
    parser_runtime_requirements: &ParserRuntimeRequirementsData,
) -> (r: ResultsOf<S>)
    requires
        old(parser).initialized_hooks() is None ==> worker_known(
            *javascript_options,
            *module_type,
        ),
    ensures
        final(parser).initialized_hooks() matches Some(hooks) && hooks_asked(
            *old(parser),
            *final(parser),
            *compiler_options,
            *javascript_options,
            *module_type,
            *parser_runtime_requirements,
            hooks,
        ) && scanned::<S>(
            input,
            source,
            program,
            *compiler_options,
            *javascript_options,
            *module_type,
            build,
            semicolons,
            parse_meta,
            *parser_runtime_requirements,
            hooks,
            r,
        ),
        exists|start: S, end: S|
            {
                &&& call_ensures(
                    S::new,
                    (
                        input,
                        source,
                        compiler_options,
                        javascript_options,
                        program.comments,
                        module_type,
                        build,
                        semicolons,
                        parse_meta,
                        parser_runtime_requirements,
                        final(parser).initialized_hooks()->0,
                    ),
                    start,
                )
                &&& #[trigger] call_ensures(S::walk_program, (start, &program.program), end)
                &&& call_ensures(S::into_results, (end,), r)
            },
{
    let hooks = parser.get_or_init_hooks(
        compiler_options,
        javascript_options,
        module_type,
        parser_runtime_requirements,
    );
    let CommentedProgram { comments, program } = program;
    let state = S::new(
        input,
        source,
        compiler_options,
        javascript_options,
        comments,
        module_type,
        build,
        semicolons,
        parse_meta,
        parser_runtime_requirements,
        hooks,
    );
    let state = state.walk_program(&program);
    state.into_results()
}

/// A scan walks once, with a state that is made of what the scan was asked for and of
/// nothing else, over the program's syntax tree, and gives what is left of that walk. The
/// result holds the state before the walk and the one after it.
pub proof fn scan_is_one_walk<S: JavascriptParserState>(
    input: S::Input,
    source: &str,
    program: ProgramOf<S>,
    compiler_options: CompilerOptions,
    javascript_options: JavascriptParserOptions,
    module_type: ModuleType,
    build: BuildOf<S>,
    semicolons: FxHashSet<u32>,
    parse_meta: ParseMetaOf<S>,
    requirements: ParserRuntimeRequirementsData,
    hooks: Arc<S::Hooks>,
    results: ResultsOf<S>,
) -> (walk: (S, S))
    requires
        scanned::<S>(
            input,
            source,
            program,
            compiler_options,
            javascript_options,
            module_type,
            build,
            semicolons,
            parse_meta,
            requirements,
            hooks,
            results,
        ),
    ensures
        call_ensures(
            S::new,
            (
                input,
                source,
                &compiler_options,
                &javascript_options,
                program.comments,
                &module_type,
                build,
                semicolons,
                parse_meta,
                &requirements,
                hooks,
            ),
            walk.0,
        ),
        call_ensures(S::walk_program, (walk.0, &program.program), walk.1),
        call_ensures(S::into_results, (walk.1,), results),
{
    choose|start: S, end: S|
        {
            &&& call_ensures(
                S::new,
                (
                    input,
                    source,
                    &compiler_options,
                    &javascript_options,
                    program.comments,
                    &module_type,
                    build,
                    semicolons,
                    parse_meta,
                    &requirements,
                    hooks,
                ),
                start,
            )
            &&& #[trigger] call_ensures(S::walk_program, (start, &program.program), end)
            &&& call_ensures(S::into_results, (end,), results)
        }
}

} // verus!
