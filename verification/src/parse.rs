//! Parsing a module: what is asked of the compiler that turns text into a program, and
//! what becomes of the program that it gives back.

use regex::Regex;
use rustc_hash::FxHashSet;
use vstd::prelude::*;

use crate::builtin_plugins::worker_known;
use crate::graph::ParserData;
use crate::module_type::{
    allows_top_level_return, is_module_of, module_type_to_is_module, IsModule, ModuleType,
};
use crate::options::{
    CompilerOptions, JavascriptParserOptions, ParserOptions, SideEffectOption,
};
use crate::parse_meta::{ParseMeta, ParseMetaValue};
use crate::parser::{hooks_asked, JavaScriptParser, JavascriptParserPlugin};
use crate::runtime_requirements::{
    legacy_require_pattern, regex_pattern, requirements_of, ParserRuntimeRequirementsData,
    RuntimeGlobals, RuntimeTemplate,
};
use crate::scan::{
    scan_dependencies, scan_is_one_walk, scanned, BuildInfo, BuildMeta, BuildOf, CommentedProgram,
    JavascriptParserState, ModuleBuild, ResultsOf, ScanDependenciesResult,
    SideEffectsBailoutItemWithSpan,
};

verus! {

/// The syntax that a module is parsed with. Whatever is not listed is off.
#[derive(Clone, Copy, Debug, PartialEq, Eq, Structural)]
pub struct EsSyntax {
    pub jsx: bool,
    pub allow_return_outside_function: bool,
    pub explicit_resource_management: bool,
    pub import_attributes: bool,
}

/// The version of the language that a module is parsed as.
#[derive(Clone, Copy, Debug, PartialEq, Eq, Structural)]
pub enum EsVersion {
    /// The newest version, with what is proposed for it.
    EsNext,
}

/// What is asked of the compiler: to turn the text, whose bytes have the positions from
/// `start` up to, but not reaching, `end`, into a program, and whether to hand out its
/// tokens and to keep its comments with it. The text, the module's type, its options and
/// the rest of its parse meta, in which `T` and `O` are the types of values, stay for its
/// scan.
pub struct ParseRequest<'a, T, O> {
    pub source: &'a str,
    pub javascript_options: &'a JavascriptParserOptions,
    pub module_type: &'a ModuleType,
    pub parse_meta: ParseMeta<ParseMetaValue<T, O>>,
    pub syntax: EsSyntax,
    pub target: EsVersion,
    pub is_module: IsModule,
    pub start: u32,
    pub end: u32,
    pub with_tokens: bool,
    pub with_comments: bool,
}

/// What the compiler made of a text: a program, the positions at which semicolons were
/// inserted, and what else the walk of the program reads. `C`, `G` and `I` are the types
/// of comments, of syntax trees and of that rest.
pub struct CompiledProgram<C, G, I> {
    pub program: CommentedProgram<C, G>,
    pub semicolons: FxHashSet<u32>,
    pub input: I,
}

/// A reason not to drop a module: where its side effect is, and what it is.
pub struct SideEffectsBailoutItem {
    pub msg: String,
    pub ty: String,
}

/// What parsing a module gives. `S`, `D`, `B` and `P` are the types of sources, of
/// dependencies, of blocks and of presentational dependencies.
pub struct ParseResult<S, D, B, P> {
    pub source: S,
    pub dependencies: Vec<D>,
    pub blocks: Vec<B>,
    pub presentational_dependencies: Vec<P>,
    pub code_generation_dependencies: Vec<D>,
    pub parser_data: Option<ParserData>,
    pub side_effects_bailout: Option<SideEffectsBailoutItem>,
}

/// The position behind the last byte of a text, where the first byte has the position
/// one. The length is taken as a number of 32 bits.
pub open spec fn end_position(source: &str) -> int {
    source.len() as int % 0x1_0000_0000 + 1
}

/// The syntax that a module is parsed with.
pub open spec fn syntax_of(
    javascript_options: JavascriptParserOptions,
    module_type: ModuleType,
) -> EsSyntax {
    EsSyntax {
        jsx: javascript_options.jsx == Some(true),
        allow_return_outside_function: allows_top_level_return(module_type),
        explicit_resource_management: true,
        import_attributes: true,
    }
}

/// The side effect that keeps a module, if one was found at a known place.
pub open spec fn bailout_of(item: Option<SideEffectsBailoutItemWithSpan>) -> Option<
    SideEffectsBailoutItem,
> {
    match item {
        Some(item) => match item.loc {
            Some(loc) => Some(SideEffectsBailoutItem { msg: loc, ty: item.ty }),
            None => None,
        },
        None => None,
    }
}

/// The result of a module that could not be parsed: the source and nothing else.
pub open spec fn is_empty_result<S, D, B, P>(
    result: ParseResult<S, D, B, P>,
    source: S,
) -> bool {
    &&& result.source == source
    &&& result.dependencies@.len() == 0
    &&& result.blocks@.len() == 0
    &&& result.presentational_dependencies@.len() == 0
    &&& result.code_generation_dependencies@.len() == 0
    &&& result.parser_data is None
    &&& result.side_effects_bailout is None
}

/// What becomes of the outcome of a scan. A failed scan gives the empty result and its
/// diagnostics. A scan that succeeded gives what it found and its warnings; if modules
/// are examined for side effects, the module is marked free of them exactly if none was
/// found.
pub open spec fn finished<S, D, B, P, E>(
    source: S,
    outcome: Result<ScanDependenciesResult<D, B, P, E>, Vec<E>>,
    side_effects: SideEffectOption,
    meta_before: BuildMeta,
    meta_after: BuildMeta,
    result: ParseResult<S, D, B, P>,
    diagnostics: Seq<E>,
) -> bool {
    match outcome {
        Err(errors) => {
            &&& is_empty_result(result, source)
            &&& diagnostics == errors@
            &&& meta_after == meta_before
        },
        Ok(found) => {
            &&& result.source == source
            &&& result.dependencies == found.dependencies
            &&& result.blocks == found.blocks
            &&& result.presentational_dependencies == found.presentational_dependencies
            &&& result.code_generation_dependencies@.len() == 0
            &&& result.parser_data is None
            &&& diagnostics == found.warning_diagnostics@
            &&& if side_effects is True {
                &&& meta_after.side_effect_free == Some(found.side_effects_item is None)
                &&& result.side_effects_bailout == bailout_of(found.side_effects_item)
            } else {
                &&& meta_after == meta_before
                &&& result.side_effects_bailout is None
            }
        },
    }
}

/// What the value under the name for collected TypeScript information says: what was
/// collected, if it is of that kind.
pub open spec fn collected_of<T, O>(
    parse_meta: Map<Seq<char>, ParseMetaValue<T, O>>,
    key: Seq<char>,
) -> Option<T> {
    if parse_meta.contains_key(key) {
        match parse_meta[key] {
            ParseMetaValue::CollectedTypeScriptInfo(info) => Some(info),
            ParseMetaValue::Other(_) => None,
        }
    } else {
        None
    }
}

/// Starts parsing a module: takes what was collected from its TypeScript source out of
/// its parse meta, where it stands under `collected_ts_info_key`, into the records of the
/// build, and says what to ask of the compiler. All else in the parse meta is kept.
pub fn begin_parse<'a, T, O>(
    parse_meta: ParseMeta<ParseMetaValue<T, O>>,
    collected_ts_info_key: &str,
    build_info: &mut BuildInfo<T>,
    module_parser_options: Option<&'a ParserOptions>,
    module_type: &'a ModuleType,
    source: &'a str,
) -> (r: ParseRequest<'a, T, O>)
    requires
        module_parser_options matches Some(options) && options.javascript is Some,
        end_position(source) <= u32::MAX,
    ensures
        r.source == source,
        *r.javascript_options == module_parser_options->0.javascript->0,
        *r.module_type == *module_type,
        r.parse_meta@ == parse_meta@.remove(collected_ts_info_key@),
        r.syntax == syntax_of(*r.javascript_options, *module_type),
        r.syntax.jsx <==> module_parser_options->0.javascript->0.jsx == Some(true),
        r.syntax.allow_return_outside_function <==> *module_type is JsDynamic || *module_type
            is JsAuto,
        r.syntax.explicit_resource_management,
        r.syntax.import_attributes,
        r.target == EsVersion::EsNext,
        r.is_module == is_module_of(*module_type),
        r.is_module == IsModule::Bool(true) <==> *module_type is JsEsm,
        r.is_module == IsModule::Bool(false) <==> *module_type is JsDynamic,
        r.start == 1,
        r.end == end_position(source),
        r.end - r.start == source.len() as int % 0x1_0000_0000,
        r.start <= r.end,
        r.with_tokens,
        r.with_comments,
        final(build_info).inline_exports == old(build_info).inline_exports,
        final(build_info).collected_typescript_info == (match collected_of(
            parse_meta@,
            collected_ts_info_key@,
        ) {
            Some(info) => Some(info),
            None => old(build_info).collected_typescript_info,
        }),
        parse_meta@.contains_key(collected_ts_info_key@)
            && parse_meta@[collected_ts_info_key@] is CollectedTypeScriptInfo
            ==> final(build_info).collected_typescript_info == Some(
            parse_meta@[collected_ts_info_key@]->CollectedTypeScriptInfo_0,
        ),
        !parse_meta@.contains_key(collected_ts_info_key@)
            || parse_meta@[collected_ts_info_key@] is Other
            ==> final(build_info).collected_typescript_info
            == old(build_info).collected_typescript_info,
{
    let mut rest = parse_meta;
    if let Some(ParseMetaValue::CollectedTypeScriptInfo(info)) = rest.remove(
        collected_ts_info_key,
    ) {
        build_info.collected_typescript_info = Some(info);
    }
    let javascript_options = module_parser_options.unwrap().get_javascript().unwrap();
    let jsx = match javascript_options.jsx {
        Some(jsx) => jsx,
        None => false,
    };
    let len: u64 = source.len() as u64;
    assert(len as u32 == len % 0x1_0000_0000) by (bit_vector);
    let end: u32 = len as u32 + 1;
    ParseRequest {
        source,
        javascript_options,
        module_type,
        parse_meta: rest,
        syntax: EsSyntax {
            jsx,
            allow_return_outside_function: matches!(
                module_type,
                ModuleType::JsDynamic | ModuleType::JsAuto
            ),
            explicit_resource_management: true,
            import_attributes: true,
        },
        target: EsVersion::EsNext,
        is_module: module_type_to_is_module(module_type),
        start: 1,
        end,
        with_tokens: true,
        with_comments: true,
    }
}

/// The result of a module that could not be parsed.
fn empty_result<S, D, B, P>(source: S) -> (r: ParseResult<S, D, B, P>)
    ensures
        is_empty_result(r, source),
{
    ParseResult {
        source,
        dependencies: Vec::new(),
        blocks: Vec::new(),
        presentational_dependencies: Vec::new(),
        code_generation_dependencies: Vec::new(),
        parser_data: None,
        side_effects_bailout: None,
    }
}

/// Ends parsing a module with the outcome of its scan.
pub fn finish_parse<S, D, B, P, E>(
    source: S,
    outcome: Result<ScanDependenciesResult<D, B, P, E>, Vec<E>>,
    compiler_options: &CompilerOptions,
    build_meta: &mut BuildMeta,
) -> (r: (ParseResult<S, D, B, P>, Vec<E>))
    ensures
        finished(
            source,
            outcome,
            compiler_options.optimization.side_effects,
            *old(build_meta),
            *final(build_meta),
            r.0,
            r.1@,
        ),
        r.0.source == source,
        outcome matches Err(errors) ==> {
            &&& r.1@ == errors@
            &&& r.0.dependencies@.len() == 0 && r.0.blocks@.len() == 0
            &&& r.0.presentational_dependencies@.len() == 0
            &&& r.0.side_effects_bailout is None
            &&& *final(build_meta) == *old(build_meta)
        },
        outcome matches Ok(found) ==> {
            &&& r.1@ == found.warning_diagnostics@
            &&& r.0.dependencies == found.dependencies && r.0.blocks == found.blocks
            &&& r.0.presentational_dependencies == found.presentational_dependencies
            &&& compiler_options.optimization.side_effects == SideEffectOption::True
                ==> final(build_meta).side_effect_free == Some(found.side_effects_item is None)
            &&& compiler_options.optimization.side_effects != SideEffectOption::True
                ==> *final(build_meta) == *old(build_meta)
        },
{
    let found = match outcome {
        Ok(found) => found,
        Err(errors) => {
            return (empty_result(source), errors);
        },
    };
    let mut side_effects_bailout = None;
    if compiler_options.optimization.side_effects.is_true() {
        build_meta.side_effect_free = Some(found.side_effects_item.is_none());
        side_effects_bailout = match found.side_effects_item {
            Some(item) => match item.loc {
                Some(msg) => Some(SideEffectsBailoutItem { msg, ty: item.ty }),
                None => None,
            },
            None => None,
        };
    }
    let result = ParseResult {
        source,
        dependencies: found.dependencies,
        blocks: found.blocks,
        presentational_dependencies: found.presentational_dependencies,
        code_generation_dependencies: Vec::new(),
        parser_data: None,
        side_effects_bailout,
    };
    (result, found.warning_diagnostics)
}

/// The records of a build, as a scan finds them: exports are marked for inlining if the
/// options ask for it.
pub open spec fn marked_for_inlining<T, X>(
    build: ModuleBuild<T, X>,
    inline_exports: bool,
) -> ModuleBuild<T, X> {
    ModuleBuild {
        build_info: BuildInfo {
            inline_exports: build.build_info.inline_exports || inline_exports,
            ..build.build_info
        },
        ..build
    }
}

/// What the compiler made of a text whose program a state of type `S` walks.
pub type CompiledOf<S> = CompiledProgram<
    <S as JavascriptParserState>::Comments,
    <S as JavascriptParserState>::InnerProgram,
    <S as JavascriptParserState>::Input,
>;

/// What was asked of the compiler, where a state of type `S` scans what it gives.
pub type RequestOf<'a, S> = ParseRequest<
    'a,
    <S as JavascriptParserState>::TypeScriptInfo,
    <S as JavascriptParserState>::OtherMeta,
>;

/// The result for a module whose program a state of type `S` walks.
pub type ParsedOf<R, S> = ParseResult<
    R,
    <S as JavascriptParserState>::Dependency,
    <S as JavascriptParserState>::Block,
    <S as JavascriptParserState>::PresentationalDependency,
>;

/// What becomes of a program that the compiler gave: it is scanned with what the parser
/// knows of the runtime, and the outcome of the scan makes the result.
pub open spec fn program_scanned<
    P: JavascriptParserPlugin<S::Hooks>,
    S: JavascriptParserState,
    R,
>(
    before: JavaScriptParser<P, S::Hooks>,
    after: JavaScriptParser<P, S::Hooks>,
    request: RequestOf<'_, S>,
    compiled: CompiledOf<S>,
    source: R,
    compiler_options: CompilerOptions,
    build: BuildOf<S>,
    requirements: ParserRuntimeRequirementsData,
    result: ParsedOf<R, S>,
    diagnostics: Seq<S::Diagnostic>,
    build_after: BuildOf<S>,
) -> bool {
    exists|results: ResultsOf<S>|
        {
            &&& after.initialized_hooks() is Some
            &&& hooks_asked(
                before,
                after,
                compiler_options,
                *request.javascript_options,
                *request.module_type,
                requirements,
                after.initialized_hooks()->0,
            )
            &&& #[trigger] scanned::<S>(
                compiled.input,
                request.source,
                compiled.program,
                compiler_options,
                *request.javascript_options,
                *request.module_type,
                marked_for_inlining(build, compiler_options.optimization.inline_exports),
                compiled.semicolons,
                request.parse_meta,
                requirements,
                after.initialized_hooks()->0,
                results,
            )
            &&& finished(
                source,
                results.outcome,
                compiler_options.optimization.side_effects,
                results.build.build_meta,
                build_after.build_meta,
                result,
                diagnostics,
            )
            &&& build_after.build_info == results.build.build_info
            &&& build_after.rest == results.build.rest
        }
}

/// A program is scanned with the names that the runtime's template gives.
pub open spec fn program_parsed<
    P: JavascriptParserPlugin<S::Hooks>,
    S: JavascriptParserState,
    T: RuntimeTemplate,
    R,
>(
    before: JavaScriptParser<P, S::Hooks>,
    after: JavaScriptParser<P, S::Hooks>,
    request: RequestOf<'_, S>,
    compiled: CompiledOf<S>,
    source: R,
    compiler_options: CompilerOptions,
    build: BuildOf<S>,
    runtime_template: T,
    require_regex: Regex,
    result: ParsedOf<R, S>,
    diagnostics: Seq<S::Diagnostic>,
    build_after: BuildOf<S>,
) -> bool {
    exists|requirements: ParserRuntimeRequirementsData|
        {
            &&& #[trigger] requirements_of(runtime_template, require_regex, requirements)
            &&& program_scanned::<P, S, R>(
                before,
                after,
                request,
                compiled,
                source,
                compiler_options,
                build,
                requirements,
                result,
                diagnostics,
                build_after,
            )
        }
}

/// Scans a program that the compiler gave, with the text, the options, the module type
/// and the parse meta of the request, and ends parsing with the outcome.
pub fn parse_program<P: JavascriptParserPlugin<S::Hooks>, S: JavascriptParserState, R>(
    parser: &mut JavaScriptParser<P, S::Hooks>,
    request: RequestOf<'_, S>,
    compiled: CompiledOf<S>,
    source: R,
    compiler_options: &CompilerOptions,
    build: BuildOf<S>,
    parser_runtime_requirements: &ParserRuntimeRequirementsData,
) -> (r: (ParsedOf<R, S>, Vec<S::Diagnostic>, BuildOf<S>))
    requires
        old(parser).initialized_hooks() is None ==> worker_known(
            *request.javascript_options,
            *request.module_type,
        ),
    ensures
        program_scanned::<P, S, R>(
            *old(parser),
            *final(parser),
            request,
            compiled,
            source,
            *compiler_options,
            build,
            *parser_runtime_requirements,
            r.0,
            r.1@,
            r.2,
        ),
{
    let mut marked = build;
    if compiler_options.optimization.inline_exports {
        marked.build_info.inline_exports = true;
    }
    assert(marked == marked_for_inlining(build, compiler_options.optimization.inline_exports));
    let results = scan_dependencies::<P, S>(
        compiled.input,
        request.source,
        compiled.program,
        compiler_options,
        request.javascript_options,
        request.module_type,
        marked,
        compiled.semicolons,
        parser,
        request.parse_meta,
        parser_runtime_requirements,
    );
    let mut build_after = results.build;
    let (result, diagnostics) = finish_parse(
        source,
        results.outcome,
        compiler_options,
        &mut build_after.build_meta,
    );
    (result, diagnostics, build_after)
}

/// Ends parsing a module with what the compiler made of its text: a program and what
/// else its walk reads, or diagnostics. If the compiler failed, the result is the empty
/// one with the compiler's diagnostics, and neither the parser nor the records of the
/// build change. Otherwise the template is asked for the runtime's names, and the program is
/// scanned with them. The regular expression is that of
/// [`legacy_require_regex`](crate::runtime_requirements::legacy_require_regex).
pub fn complete_parse<
    P: JavascriptParserPlugin<S::Hooks>,
    S: JavascriptParserState,
    T: RuntimeTemplate,
    R,
>(
    parser: &mut JavaScriptParser<P, S::Hooks>,
    request: RequestOf<'_, S>,
    compiled: Result<CompiledOf<S>, Vec<S::Diagnostic>>,
    source: R,
    compiler_options: &CompilerOptions,
    build: BuildOf<S>,
    runtime_template: &T,
    require_regex: Regex,
) -> (r: (ParsedOf<R, S>, Vec<S::Diagnostic>, BuildOf<S>))
    requires
        regex_pattern(require_regex) == legacy_require_pattern(),
        compiled is Ok && old(parser).initialized_hooks() is None ==> worker_known(
            *request.javascript_options,
            *request.module_type,
        ),
    ensures
        match compiled {
            Err(errors) => {
                &&& is_empty_result(r.0, source)
                &&& r.1@ == errors@
                &&& r.2 == build
                &&& *final(parser) == *old(parser)
            },
            Ok(compiled) => program_parsed::<P, S, T, R>(
                *old(parser),
                *final(parser),
                request,
                compiled,
                source,
                *compiler_options,
                build,
                *runtime_template,
                require_regex,
                r.0,
                r.1@,
                r.2,
            ),
        },
{
    let compiled = match compiled {
        Ok(compiled) => compiled,
        Err(errors) => {
            return (empty_result(source), errors, build);
        },
    };
    let requirements = ParserRuntimeRequirementsData::new(runtime_template, require_regex);
    parse_program::<P, S, R>(
        parser,
        request,
        compiled,
        source,
        compiler_options,
        build,
        &requirements,
    )
}

/// A module with a reason not to be dropped is never marked free of side effects.
pub proof fn bailout_is_not_side_effect_free<S, D, B, P, E>(
    source: S,
    outcome: Result<ScanDependenciesResult<D, B, P, E>, Vec<E>>,
    side_effects: SideEffectOption,
    meta_before: BuildMeta,
    meta_after: BuildMeta,
    result: ParseResult<S, D, B, P>,
    diagnostics: Seq<E>,
)
    requires
        finished(source, outcome, side_effects, meta_before, meta_after, result, diagnostics),
    ensures
        result.side_effects_bailout is Some ==> meta_after.side_effect_free == Some(false),
{
}

/// Unless modules are examined for side effects, parsing says nothing of them.
pub proof fn side_effects_not_examined<S, D, B, P, E>(
    source: S,
    outcome: Result<ScanDependenciesResult<D, B, P, E>, Vec<E>>,
    side_effects: SideEffectOption,
    meta_before: BuildMeta,
    meta_after: BuildMeta,
    result: ParseResult<S, D, B, P>,
    diagnostics: Seq<E>,
)
    requires
        finished(source, outcome, side_effects, meta_before, meta_after, result, diagnostics),
        side_effects !is True,
    ensures
        meta_after == meta_before,
        result.side_effects_bailout is None,
{
}

/// Of the syntax of a module only the permission to return outside functions depends on
/// the module's type, and only JSX on the options; it is off unless they turn it on. What
/// releases resources and attributes of imports are read in every module.
pub proof fn syntax_says(
    javascript_options: JavascriptParserOptions,
    module_type: ModuleType,
)
    ensures
        ({
            let syntax = syntax_of(javascript_options, module_type);
            &&& syntax.import_attributes
            &&& syntax.explicit_resource_management
            &&& javascript_options.jsx is None ==> !syntax.jsx
            &&& javascript_options.jsx matches Some(jsx) ==> syntax.jsx == jsx
            &&& module_type is JsAuto || module_type is JsDynamic
                ==> syntax.allow_return_outside_function
            &&& module_type is JsEsm || module_type is Other
                ==> !syntax.allow_return_outside_function
        }),
{
}

/// Two modules are parsed with syntaxes that differ in no more than the permission to
/// return outside functions, if their options agree on JSX.
pub proof fn syntaxes_agree(
    a_options: JavascriptParserOptions,
    a: ModuleType,
    b_options: JavascriptParserOptions,
    b: ModuleType,
)
    requires
        a_options.jsx == b_options.jsx,
    ensures
        ({
            let of_a = syntax_of(a_options, a);
            let of_b = syntax_of(b_options, b);
            &&& of_a.jsx == of_b.jsx
            &&& of_a.explicit_resource_management == of_b.explicit_resource_management
            &&& of_a.import_attributes == of_b.import_attributes
        }),
{
}

/// As many positions lie between the first one and the end as a text has bytes, unless the
/// text has too many of them for 32 bits.
pub proof fn positions_count_bytes(source: &str)
    ensures
        source.len() < 0x1_0000_0000 ==> end_position(source) - 1 == source.len(),
        1 <= end_position(source) <= 0x1_0000_0000,
{
}

/// What was collected from TypeScript is found if and only if a value of that kind stands
/// under the given name, whatever stands under other names.
pub proof fn collected_under_its_name<T, O>(
    parse_meta: Map<Seq<char>, ParseMetaValue<T, O>>,
    key: Seq<char>,
    info: T,
    other: O,
)
    ensures
        collected_of(
            parse_meta.insert(key, ParseMetaValue::CollectedTypeScriptInfo(info)),
            key,
        ) == Some(info),
        collected_of(parse_meta.insert(key, ParseMetaValue::Other(other)), key) is None,
        collected_of(parse_meta.remove(key), key) is None,
{
}

/// A scan that failed leaves nothing but its diagnostics: no dependency, no block, and no
/// word on side effects.
pub proof fn failed_scan_leaves_diagnostics<S, D, B, P, E>(
    source: S,
    errors: Vec<E>,
    side_effects: SideEffectOption,
    meta_before: BuildMeta,
    meta_after: BuildMeta,
    result: ParseResult<S, D, B, P>,
    diagnostics: Seq<E>,
)
    requires
        finished(
            source,
            Err::<ScanDependenciesResult<D, B, P, E>, Vec<E>>(errors),
            side_effects,
            meta_before,
            meta_after,
            result,
            diagnostics,
        ),
    ensures
        result.source == source,
        result.dependencies@ == Seq::<D>::empty(),
        result.blocks@ == Seq::<B>::empty(),
        result.presentational_dependencies@ == Seq::<P>::empty(),
        result.code_generation_dependencies@ == Seq::<D>::empty(),
        result.parser_data is None,
        result.side_effects_bailout is None,
        diagnostics == errors@,
        meta_after == meta_before,
{
}

/// A scan that succeeded gives all that it found, and its warnings. Where modules are
/// examined, the module is free of side effects exactly if none was found, and a side
/// effect at a known place is the reason not to drop the module, with that place and its
/// kind. Where they are not, nothing is said.
pub proof fn scan_that_succeeded_gives_all<S, D, B, P, E>(
    source: S,
    found: ScanDependenciesResult<D, B, P, E>,
    side_effects: SideEffectOption,
    meta_before: BuildMeta,
    meta_after: BuildMeta,
    result: ParseResult<S, D, B, P>,
    diagnostics: Seq<E>,
)
    requires
        finished(
            source,
            Ok::<ScanDependenciesResult<D, B, P, E>, Vec<E>>(found),
            side_effects,
            meta_before,
            meta_after,
            result,
            diagnostics,
        ),
    ensures
        result.source == source,
        result.dependencies == found.dependencies,
        result.blocks == found.blocks,
        result.presentational_dependencies == found.presentational_dependencies,
        result.code_generation_dependencies@ == Seq::<D>::empty(),
        result.parser_data is None,
        diagnostics == found.warning_diagnostics@,
        side_effects == SideEffectOption::True && found.side_effects_item is None ==> {
            &&& meta_after.side_effect_free == Some(true)
            &&& result.side_effects_bailout is None
        },
        side_effects == SideEffectOption::True && found.side_effects_item is Some ==> {
            let item = found.side_effects_item->0;
            &&& meta_after.side_effect_free == Some(false)
            &&& result.side_effects_bailout is Some <==> item.loc is Some
            &&& result.side_effects_bailout matches Some(bailout) ==> bailout.msg == item.loc->0
                && bailout.ty == item.ty
        },
        side_effects == SideEffectOption::False || side_effects == SideEffectOption::Flag ==> {
            &&& meta_after.side_effect_free == meta_before.side_effect_free
            &&& result.side_effects_bailout is None
        },
{
}

/// Marking exports for inlining touches that mark alone. It is set if the options ask for
/// it, and never taken back.
pub proof fn only_the_mark_changes<T, X>(build: ModuleBuild<T, X>, inline_exports: bool)
    ensures
        ({
            let marked = marked_for_inlining(build, inline_exports);
            &&& marked.build_info.inline_exports <==> inline_exports
                || build.build_info.inline_exports
            &&& marked.build_info.collected_typescript_info
                == build.build_info.collected_typescript_info
            &&& marked.build_meta == build.build_meta
            &&& marked.rest == build.rest
        }),
{
}

/// A program is walked once, by a state that has the text, the type, the options and the
/// parse meta of the request, the comments, the semicolons and the rest that the compiler
/// gave, the records of the build with exports marked for inlining if the options ask for
/// it, and the hooks of the parser. The records come back as the walk left them, but for
/// the word on side effects. The result holds the records that the walk starts with, the
/// state before it, the one after it, and what is left of it.
pub proof fn program_is_walked_with_the_request<
    P: JavascriptParserPlugin<S::Hooks>,
    S: JavascriptParserState,
    R,
>(
    before: JavaScriptParser<P, S::Hooks>,
    after: JavaScriptParser<P, S::Hooks>,
    request: RequestOf<'_, S>,
    compiled: CompiledOf<S>,
    source: R,
    compiler_options: CompilerOptions,
    build: BuildOf<S>,
    requirements: ParserRuntimeRequirementsData,
    result: ParsedOf<R, S>,
    diagnostics: Seq<S::Diagnostic>,
    build_after: BuildOf<S>,
) -> (walk: (BuildOf<S>, S, S, ResultsOf<S>))
    requires
        program_scanned::<P, S, R>(
            before,
            after,
            request,
            compiled,
            source,
            compiler_options,
            build,
            requirements,
            result,
            diagnostics,
            build_after,
        ),
    ensures
        after.plugins() == before.plugins(),
        after.initialized_hooks() is Some,
        before.initialized_hooks() is Some ==> after.initialized_hooks()
            == before.initialized_hooks(),
        hooks_asked(
            before,
            after,
            compiler_options,
            *request.javascript_options,
            *request.module_type,
            requirements,
            after.initialized_hooks()->0,
        ),
        walk.0.build_info.inline_exports <==> build.build_info.inline_exports
            || compiler_options.optimization.inline_exports,
        walk.0.build_info.collected_typescript_info == build.build_info.collected_typescript_info,
        walk.0.build_meta == build.build_meta,
        walk.0.rest == build.rest,
        call_ensures(
            S::new,
            (
                compiled.input,
                request.source,
                &compiler_options,
                request.javascript_options,
                compiled.program.comments,
                request.module_type,
                walk.0,
                compiled.semicolons,
                request.parse_meta,
                &requirements,
                after.initialized_hooks()->0,
            ),
            walk.1,
        ),
        call_ensures(S::walk_program, (walk.1, &compiled.program.program), walk.2),
        call_ensures(S::into_results, (walk.2,), walk.3),
        walk.3.outcome is Err ==> {
            &&& diagnostics == walk.3.outcome->Err_0@
            &&& result.dependencies@.len() == 0 && result.blocks@.len() == 0
            &&& result.presentational_dependencies@.len() == 0
            &&& result.side_effects_bailout is None
            &&& build_after.build_meta == walk.3.build.build_meta
        },
        walk.3.outcome is Ok ==> {
            let found = walk.3.outcome->Ok_0;
            &&& diagnostics == found.warning_diagnostics@
            &&& result.dependencies == found.dependencies && result.blocks == found.blocks
            &&& result.presentational_dependencies == found.presentational_dependencies
            &&& compiler_options.optimization.side_effects == SideEffectOption::True
                ==> {
                &&& build_after.build_meta.side_effect_free == Some(
                    found.side_effects_item is None,
                )
                &&& result.side_effects_bailout is Some <==> found.side_effects_item is Some
                    && found.side_effects_item->0.loc is Some
                &&& result.side_effects_bailout matches Some(bailout) ==> bailout.msg
                    == found.side_effects_item->0.loc->0 && bailout.ty
                    == found.side_effects_item->0.ty
            }
            &&& compiler_options.optimization.side_effects != SideEffectOption::True
                ==> build_after.build_meta == walk.3.build.build_meta
                && result.side_effects_bailout is None
        },
        result.source == source,
        build_after.build_info == walk.3.build.build_info,
        build_after.rest == walk.3.build.rest,
{
    let marked = marked_for_inlining(build, compiler_options.optimization.inline_exports);
    let results = choose|results: ResultsOf<S>|
        {
            &&& #[trigger] scanned::<S>(
                compiled.input,
                request.source,
                compiled.program,
                compiler_options,
                *request.javascript_options,
                *request.module_type,
                marked,
                compiled.semicolons,
                request.parse_meta,
                requirements,
                after.initialized_hooks()->0,
                results,
            )
            &&& finished(
                source,
                results.outcome,
                compiler_options.optimization.side_effects,
                results.build.build_meta,
                build_after.build_meta,
                result,
                diagnostics,
            )
            &&& build_after.build_info == results.build.build_info
            &&& build_after.rest == results.build.rest
        };
    let (start, end) = scan_is_one_walk::<S>(
        compiled.input,
        request.source,
        compiled.program,
        compiler_options,
        *request.javascript_options,
        *request.module_type,
        marked,
        compiled.semicolons,
        request.parse_meta,
        requirements,
        after.initialized_hooks()->0,
        results,
    );
    (marked, start, end, results)
}

/// The names that a parse goes by are those that the template gives for the three globals,
/// each in its place. The result holds them.
pub proof fn names_come_from_the_template<
    P: JavascriptParserPlugin<S::Hooks>,
    S: JavascriptParserState,
    T: RuntimeTemplate,
    R,
>(
    before: JavaScriptParser<P, S::Hooks>,
    after: JavaScriptParser<P, S::Hooks>,
    request: RequestOf<'_, S>,
    compiled: CompiledOf<S>,
    source: R,
    compiler_options: CompilerOptions,
    build: BuildOf<S>,
    runtime_template: T,
    require_regex: Regex,
    result: ParsedOf<R, S>,
    diagnostics: Seq<S::Diagnostic>,
    build_after: BuildOf<S>,
) -> (requirements: ParserRuntimeRequirementsData)
    requires
        program_parsed::<P, S, T, R>(
            before,
            after,
            request,
            compiled,
            source,
            compiler_options,
            build,
            runtime_template,
            require_regex,
            result,
            diagnostics,
            build_after,
        ),
    ensures
        call_ensures(
            T::render_runtime_globals_without_adding,
            (&runtime_template, RuntimeGlobals::Module),
            requirements.module,
        ),
        call_ensures(
            T::render_runtime_globals_without_adding,
            (&runtime_template, RuntimeGlobals::Exports),
            requirements.exports,
        ),
        call_ensures(
            T::render_runtime_globals_without_adding,
            (&runtime_template, RuntimeGlobals::Require),
            requirements.require,
        ),
        requirements.require_regex == require_regex,
        program_scanned::<P, S, R>(
            before,
            after,
            request,
            compiled,
            source,
            compiler_options,
            build,
            requirements,
            result,
            diagnostics,
            build_after,
        ),
{
    choose|requirements: ParserRuntimeRequirementsData|
        {
            &&& #[trigger] requirements_of(runtime_template, require_regex, requirements)
            &&& program_scanned::<P, S, R>(
                before,
                after,
                request,
                compiled,
                source,
                compiler_options,
                build,
                requirements,
                result,
                diagnostics,
                build_after,
            )
        }
}

} // verus!
