use std::sync::Arc;

use rspack_plugin_javascript::builtin_plugins::BuiltinPlugin;
use rspack_plugin_javascript::module_type::{IsModule, ModuleType};
use rspack_plugin_javascript::options::{
    CompilerOptions, JavascriptParserOptions, Optimization, OutputOptions, ParserOptions,
    SideEffectOption,
};
use rspack_plugin_javascript::parse::{
    begin_parse, complete_parse, finish_parse, parse_program, CompiledProgram, EsSyntax, EsVersion,
    ParseRequest, ParseResult,
};
use rspack_plugin_javascript::parse_meta::{ParseMeta, ParseMetaValue};
use rspack_plugin_javascript::parser::{
    JavaScriptParser, JavascriptParserHooks, JavascriptParserPlugin,
};
use rspack_plugin_javascript::runtime_requirements::{
    legacy_require_regex, ParserRuntimeRequirementsData, RuntimeGlobals, RuntimeTemplate,
};
use rspack_plugin_javascript::scan::{
    scan_dependencies, BuildInfo, BuildMeta, CommentedProgram, JavascriptParserState, ModuleBuild,
    ScanDependenciesResult, ScanResults, SideEffectsBailoutItemWithSpan,
};
use rustc_hash::FxHashSet;

struct Template;

impl RuntimeTemplate for Template {
    fn render_runtime_globals_without_adding(&self, global: RuntimeGlobals) -> String {
        format!("<{:?}>", global)
    }
}

#[derive(Default)]
struct Hooks(usize);

impl JavascriptParserHooks for Hooks {
    fn apply_builtin(
        self,
        _plugin: BuiltinPlugin<'_>,
        _requirements: &ParserRuntimeRequirementsData,
    ) -> Self {
        Hooks(self.0 + 1)
    }
}

struct Plugin;

impl JavascriptParserPlugin<Hooks> for Plugin {
    fn apply(&self, hooks: Hooks, _requirements: &ParserRuntimeRequirementsData) -> Hooks {
        Hooks(hooks.0 + 1000)
    }
}

/// A walker over words: `dep:x` is a dependency, `warn:x` a warning, `fail:x` an error,
/// `effect:x` a side effect at `x`, `effect` one at an unknown place, `meta:x` a dependency
/// on what the parse meta has under `x`, `comments` one on the comments, and `;` adds the
/// position a thousand to the semicolons.
struct Walker {
    prefix: String,
    comments: Option<String>,
    build: ModuleBuild<u8, u32>,
    semicolons: FxHashSet<u32>,
    parse_meta: ParseMeta<ParseMetaValue<u8, String>>,
    found: ScanDependenciesResult<String, String, String, String>,
    errors: Vec<String>,
}

impl JavascriptParserState for Walker {
    type Input = String;
    type Comments = String;
    type InnerProgram = Vec<String>;
    type Hooks = Hooks;
    type Dependency = String;
    type Block = String;
    type PresentationalDependency = String;
    type Diagnostic = String;
    type TypeScriptInfo = u8;
    type OtherMeta = String;
    type BuildRest = u32;

    fn new(
        input: String,
        source: &str,
        _compiler_options: &CompilerOptions,
        _javascript_options: &JavascriptParserOptions,
        comments: Option<String>,
        _module_type: &ModuleType,
        build: ModuleBuild<u8, u32>,
        semicolons: FxHashSet<u32>,
        parse_meta: ParseMeta<ParseMetaValue<u8, String>>,
        requirements: &ParserRuntimeRequirementsData,
        hooks: Arc<Hooks>,
    ) -> Self {
        Walker {
            prefix: format!("{}{}{}{}", input, source, requirements.exports, hooks.0),
            comments,
            build,
            semicolons,
            parse_meta,
            found: ScanDependenciesResult {
                dependencies: vec![],
                blocks: vec!["block".to_string()],
                presentational_dependencies: vec!["shown".to_string()],
                warning_diagnostics: vec![],
                side_effects_item: None,
            },
            errors: vec![],
        }
    }

    fn walk_program(mut self, program: &Vec<String>) -> Self {
        for word in program {
            self.build.rest += 1;
            if let Some(name) = word.strip_prefix("dep:") {
                self.found.dependencies.push(format!("{}{}", self.prefix, name));
            } else if let Some(text) = word.strip_prefix("warn:") {
                self.found.warning_diagnostics.push(text.to_string());
            } else if let Some(text) = word.strip_prefix("fail:") {
                self.errors.push(text.to_string());
            } else if let Some(place) = word.strip_prefix("effect:") {
                self.found.side_effects_item = Some(SideEffectsBailoutItemWithSpan {
                    loc: Some(place.to_string()),
                    ty: "Statement".to_string(),
                });
            } else if let Some(key) = word.strip_prefix("meta:") {
                self.found.dependencies.push(match self.parse_meta.get(key) {
                    Some(ParseMetaValue::Other(text)) => text.clone(),
                    Some(ParseMetaValue::CollectedTypeScriptInfo(info)) => info.to_string(),
                    None => "nothing".to_string(),
                });
            } else if word == "comments" {
                self.found.dependencies.push(format!("{:?}", self.comments));
            } else if word == ";" {
                self.semicolons.insert(1000);
            } else if word == "effect" {
                self.found.side_effects_item = Some(SideEffectsBailoutItemWithSpan {
                    loc: None,
                    ty: "Statement".to_string(),
                });
            }
        }
        self
    }

    fn into_results(self) -> ScanResults<String, String, String, String, u8, u32> {
        let outcome = if self.errors.is_empty() { Ok(self.found) } else { Err(self.errors) };
        ScanResults { outcome, build: self.build, semicolons: self.semicolons }
    }
}

fn compiler_options(inline_exports: bool, side_effects: SideEffectOption) -> CompilerOptions {
    CompilerOptions {
        amd: false,
        node: false,
        output: OutputOptions { module: false },
        optimization: Optimization { inline_exports, inner_graph: false, side_effects },
    }
}

fn javascript_options(jsx: Option<bool>) -> JavascriptParserOptions {
    JavascriptParserOptions { import_meta: None, commonjs: None, worker: Some(vec![]), jsx }
}

fn build() -> ModuleBuild<u8, u32> {
    ModuleBuild {
        build_info: BuildInfo { collected_typescript_info: Some(5), inline_exports: false },
        build_meta: BuildMeta { side_effect_free: None },
        rest: 0,
    }
}

fn words(text: &str) -> Vec<String> {
    text.split(' ').map(|word| word.to_string()).collect()
}

type Compiled = CompiledProgram<String, Vec<String>, String>;

fn program(text: &str, comments: Option<&str>) -> CommentedProgram<String, Vec<String>> {
    CommentedProgram { comments: comments.map(|text| text.to_string()), program: words(text) }
}

fn compiled(text: &str, input: &str) -> Compiled {
    CompiledProgram {
        program: program(text, None),
        semicolons: FxHashSet::default(),
        input: input.to_string(),
    }
}

/// A parse meta with three entries, two of them of the TypeScript kind.
fn parse_meta() -> ParseMeta<ParseMetaValue<u8, String>> {
    let mut parse_meta = ParseMeta::new();
    parse_meta.insert("ts".to_string(), ParseMetaValue::CollectedTypeScriptInfo(9));
    parse_meta.insert("text".to_string(), ParseMetaValue::Other("kept".to_string()));
    parse_meta.insert("other".to_string(), ParseMetaValue::CollectedTypeScriptInfo(4));
    parse_meta
}

type Parsed = (ParseResult<&'static str, String, String, String>, Vec<String>, ModuleBuild<u8, u32>);

fn complete(
    parser: &mut JavaScriptParser<Plugin, Hooks>,
    compiled: Result<Compiled, Vec<String>>,
    options: &CompilerOptions,
) -> Parsed {
    let parser_options = ParserOptions { javascript: Some(javascript_options(None)) };
    let mut info = BuildInfo { collected_typescript_info: None, inline_exports: false };
    let request = begin_parse(
        parse_meta(),
        "ts",
        &mut info,
        Some(&parser_options),
        &ModuleType::Other(1),
        "text",
    );
    complete_parse::<Plugin, Walker, Template, &'static str>(
        parser,
        request,
        compiled,
        "source",
        options,
        build(),
        &Template,
        legacy_require_regex().unwrap(),
    )
}

fn assert_empty(result: &ParseResult<&'static str, String, String, String>) {
    assert_eq!(result.source, "source");
    assert!(result.dependencies.is_empty());
    assert!(result.blocks.is_empty());
    assert!(result.presentational_dependencies.is_empty());
    assert!(result.code_generation_dependencies.is_empty());
    assert!(result.parser_data.is_none());
    assert!(result.side_effects_bailout.is_none());
}

#[test]
fn the_request_follows_options_and_module_type() {
    let options = ParserOptions { javascript: Some(javascript_options(Some(true))) };
    let mut info: BuildInfo<u8> =
        BuildInfo { collected_typescript_info: None, inline_exports: false };
    let request: ParseRequest<u8, ()> = begin_parse(
        ParseMeta::new(),
        "ts",
        &mut info,
        Some(&options),
        &ModuleType::JsDynamic,
        "a é",
    );
    assert_eq!(request.source, "a é");
    assert_eq!(request.javascript_options.jsx, Some(true));
    assert!(request.module_type.is_js_dynamic());
    assert_eq!(
        request.syntax,
        EsSyntax {
            jsx: true,
            allow_return_outside_function: true,
            explicit_resource_management: true,
            import_attributes: true,
        }
    );
    assert_eq!(request.target, EsVersion::EsNext);
    assert_eq!(request.is_module, IsModule::Bool(false));
    assert_eq!((request.start, request.end), (1, 5));
    assert_eq!((request.with_tokens, request.with_comments), (true, true));
    assert_eq!(info.collected_typescript_info, None);
}

#[test]
fn jsx_is_off_and_return_forbidden_in_an_es_module() {
    let options = ParserOptions { javascript: Some(javascript_options(None)) };
    let mut info: BuildInfo<u8> =
        BuildInfo { collected_typescript_info: None, inline_exports: true };
    let request: ParseRequest<u8, ()> =
        begin_parse(ParseMeta::new(), "ts", &mut info, Some(&options), &ModuleType::JsEsm, "");
    assert!(!request.syntax.jsx);
    assert!(!request.syntax.allow_return_outside_function);
    assert_eq!(request.is_module, IsModule::Bool(true));
    assert_eq!((request.start, request.end), (1, 1));
    assert!(info.inline_exports);
}

#[test]
fn collected_typescript_info_is_taken_over() {
    let options = ParserOptions { javascript: Some(javascript_options(None)) };
    let mut info = BuildInfo { collected_typescript_info: Some(1u8), inline_exports: false };
    let request = begin_parse(
        parse_meta(),
        "text",
        &mut info,
        Some(&options),
        &ModuleType::JsAuto,
        "x",
    );
    assert_eq!(info.collected_typescript_info, Some(1));
    assert!(request.parse_meta.get("text").is_none());
    begin_parse(parse_meta(), "none", &mut info, Some(&options), &ModuleType::JsAuto, "x");
    assert_eq!(info.collected_typescript_info, Some(1));
    let request =
        begin_parse(parse_meta(), "ts", &mut info, Some(&options), &ModuleType::JsAuto, "x");
    assert_eq!(info.collected_typescript_info, Some(9));
    assert!(request.parse_meta.get("ts").is_none());
    assert!(matches!(
        request.parse_meta.get("other"),
        Some(ParseMetaValue::CollectedTypeScriptInfo(4))
    ));
}

#[test]
fn an_entry_of_the_parse_meta_is_replaced_and_removed() {
    let mut meta: ParseMeta<u8> = ParseMeta::new();
    assert_eq!(meta.get("a"), None);
    meta.insert("a".to_string(), 1);
    meta.insert("b".to_string(), 2);
    meta.insert("a".to_string(), 3);
    assert_eq!((meta.get("a"), meta.get("b"), meta.get("")), (Some(&3), Some(&2), None));
    assert_eq!(meta.remove("c"), None);
    assert_eq!(meta.remove("a"), Some(3));
    assert_eq!(meta.remove("a"), None);
    assert_eq!((meta.get("a"), meta.get("b")), (None, Some(&2)));
}

#[test]
fn the_rest_of_the_parse_meta_reaches_the_scan() {
    let mut parser = JavaScriptParser::default();
    let (result, _, _) = complete(
        &mut parser,
        Ok(compiled("meta:ts meta:text meta:other", "")),
        &compiler_options(false, SideEffectOption::False),
    );
    assert_eq!(result.dependencies, vec!["nothing", "kept", "4"]);
}

#[test]
fn a_failed_compilation_gives_the_empty_result() {
    let mut parser = JavaScriptParser::default();
    let (result, diagnostics, build) = complete(
        &mut parser,
        Err(vec!["bad token".to_string()]),
        &compiler_options(true, SideEffectOption::True),
    );
    assert_empty(&result);
    assert_eq!(diagnostics, vec!["bad token"]);
    assert!(!build.build_info.inline_exports);
    assert_eq!(build.build_info.collected_typescript_info, Some(5));
    assert_eq!(build.build_meta.side_effect_free, None);
    assert!(!parser.hooks_initialized());
}

#[test]
fn a_failed_scan_gives_the_empty_result() {
    let mut parser = JavaScriptParser::default();
    let (result, diagnostics, build) = complete(
        &mut parser,
        Ok(compiled("dep:a fail:broken effect:1", "")),
        &compiler_options(true, SideEffectOption::True),
    );
    assert_empty(&result);
    assert_eq!(diagnostics, vec!["broken"]);
    assert!(build.build_info.inline_exports);
    assert_eq!(build.build_meta.side_effect_free, None);
    assert_eq!(build.rest, 3);
    assert!(parser.hooks_initialized());
}

#[test]
fn a_scan_that_succeeds_gives_what_it_found() {
    let mut parser = JavaScriptParser::default();
    parser.add_parser_plugin(Plugin);
    let (result, diagnostics, build) = complete(
        &mut parser,
        Ok(compiled("dep:a warn:old dep:b", "in ")),
        &compiler_options(false, SideEffectOption::True),
    );
    assert_eq!(result.source, "source");
    assert_eq!(result.dependencies, vec!["in text<Exports>1009a", "in text<Exports>1009b"]);
    assert_eq!(result.blocks, vec!["block"]);
    assert_eq!(result.presentational_dependencies, vec!["shown"]);
    assert!(result.code_generation_dependencies.is_empty());
    assert!(result.side_effects_bailout.is_none());
    assert_eq!(diagnostics, vec!["old"]);
    assert!(!build.build_info.inline_exports);
    assert_eq!(build.build_meta.side_effect_free, Some(true));
    assert_eq!(build.rest, 3);
}

#[test]
fn a_side_effect_keeps_the_module() {
    let mut parser = JavaScriptParser::default();
    let (result, _, build) = complete(
        &mut parser,
        Ok(compiled("effect:3-7", "")),
        &compiler_options(false, SideEffectOption::True),
    );
    let item = result.side_effects_bailout.unwrap();
    assert_eq!((item.msg.as_str(), item.ty.as_str()), ("3-7", "Statement"));
    assert_eq!(build.build_meta.side_effect_free, Some(false));
}

#[test]
fn a_side_effect_at_an_unknown_place_has_no_bailout() {
    let mut parser = JavaScriptParser::default();
    let (result, _, build) = complete(
        &mut parser,
        Ok(compiled("effect", "")),
        &compiler_options(false, SideEffectOption::True),
    );
    assert!(result.side_effects_bailout.is_none());
    assert_eq!(build.build_meta.side_effect_free, Some(false));
}

#[test]
fn side_effects_are_ignored_unless_examined() {
    for option in [SideEffectOption::False, SideEffectOption::Flag] {
        let mut parser = JavaScriptParser::default();
        let (result, _, build) = complete(
            &mut parser,
            Ok(compiled("effect:3-7", "")),
            &compiler_options(false, option),
        );
        assert!(result.side_effects_bailout.is_none());
        assert_eq!(build.build_meta.side_effect_free, None);
    }
}

#[test]
fn finishing_overwrites_the_mark_only_after_a_scan() {
    let options = compiler_options(false, SideEffectOption::True);
    let mut meta = BuildMeta { side_effect_free: Some(false) };
    let failed: Result<ScanDependenciesResult<u8, u8, u8, u8>, Vec<u8>> = Err(vec![1]);
    let (_, diagnostics) = finish_parse((), failed, &options, &mut meta);
    assert_eq!(diagnostics, vec![1]);
    assert_eq!(meta.side_effect_free, Some(false));
    let found: Result<ScanDependenciesResult<u8, u8, u8, u8>, Vec<u8>> =
        Ok(ScanDependenciesResult {
            dependencies: vec![4],
            blocks: vec![5],
            presentational_dependencies: vec![6],
            warning_diagnostics: vec![7],
            side_effects_item: None,
        });
    let (result, diagnostics) = finish_parse((), found, &options, &mut meta);
    assert_eq!(diagnostics, vec![7]);
    assert_eq!(result.dependencies, vec![4]);
    assert_eq!(result.blocks, vec![5]);
    assert_eq!(result.presentational_dependencies, vec![6]);
    assert_eq!(meta.side_effect_free, Some(true));
}

#[test]
fn a_second_scan_uses_the_same_hooks() {
    let mut parser: JavaScriptParser<Plugin, Hooks> = JavaScriptParser::default();
    let requirements =
        ParserRuntimeRequirementsData::new(&Template, legacy_require_regex().unwrap());
    let mut prefixes = vec![];
    for module_type in [ModuleType::Other(1), ModuleType::JsEsm] {
        let results = scan_dependencies::<Plugin, Walker>(
            "p".to_string(),
            "s",
            program("dep:x", None),
            &compiler_options(false, SideEffectOption::False),
            &javascript_options(None),
            &module_type,
            build(),
            FxHashSet::default(),
            &mut parser,
            ParseMeta::new(),
            &requirements,
        );
        prefixes.push(results.outcome.ok().unwrap().dependencies[0].clone());
    }
    assert_eq!(prefixes, vec!["ps<Exports>8x", "ps<Exports>8x"]);
}

#[test]
fn known_hooks_are_used() {
    let hooks = Arc::new(Hooks(70));
    let mut parser: JavaScriptParser<Plugin, Hooks> = JavaScriptParser::with_hooks(hooks.clone());
    assert!(parser.hooks_initialized());
    let (result, _, _) = complete(
        &mut parser,
        Ok(compiled("dep:x", "p ")),
        &compiler_options(false, SideEffectOption::False),
    );
    assert_eq!(result.dependencies, vec!["p text<Exports>70x"]);
}

#[test]
fn a_scan_has_the_comments_of_its_program_and_gives_the_semicolons_back() {
    let requirements =
        ParserRuntimeRequirementsData::new(&Template, legacy_require_regex().unwrap());
    for (comments, seen) in [(None, "None"), (Some("note"), "Some(\"note\")")] {
        let mut parser: JavaScriptParser<Plugin, Hooks> = JavaScriptParser::default();
        let results = scan_dependencies::<Plugin, Walker>(
            String::new(),
            "",
            program("comments ;", comments),
            &compiler_options(false, SideEffectOption::False),
            &javascript_options(None),
            &ModuleType::Other(1),
            build(),
            FxHashSet::from_iter([7, 8]),
            &mut parser,
            ParseMeta::new(),
            &requirements,
        );
        assert_eq!(results.outcome.ok().unwrap().dependencies, vec![seen]);
        assert_eq!(results.semicolons, FxHashSet::from_iter([7, 8, 1000]));
        assert_eq!(results.build.rest, 2);
    }
}

#[test]
fn the_requirements_hold_the_legacy_pattern() {
    let requirements =
        ParserRuntimeRequirementsData::new(&Template, legacy_require_regex().unwrap());
    assert_eq!(requirements.require_regex.as_str(), "__webpack_require__\\s*(!?\\.)");
    assert_eq!(requirements.require, "<Require>");
    assert_eq!(requirements.module, "<Module>");
}

#[test]
fn a_program_is_parsed_with_requirements_that_are_handed_on() {
    let parser_options = ParserOptions { javascript: Some(javascript_options(None)) };
    let mut info = BuildInfo { collected_typescript_info: None, inline_exports: false };
    let request = begin_parse(
        parse_meta(),
        "ts",
        &mut info,
        Some(&parser_options),
        &ModuleType::Other(1),
        "text",
    );
    let mut requirements =
        ParserRuntimeRequirementsData::new(&Template, legacy_require_regex().unwrap());
    requirements.exports = "!".to_string();
    let mut parser: JavaScriptParser<Plugin, Hooks> = JavaScriptParser::default();
    let (result, diagnostics, build) = parse_program::<Plugin, Walker, &'static str>(
        &mut parser,
        request,
        compiled("dep:x warn:old", ""),
        "source",
        &compiler_options(true, SideEffectOption::False),
        build(),
        &requirements,
    );
    assert_eq!(result.dependencies, vec!["text!9x"]);
    assert_eq!(diagnostics, vec!["old"]);
    assert!(build.build_info.inline_exports);
    assert!(parser.hooks_initialized());
}
