use std::sync::Arc;

use rspack_plugin_javascript::builtin_plugins::{builtin_plugins, BuiltinPlugin};
use rspack_plugin_javascript::module_type::ModuleType;
use rspack_plugin_javascript::options::{
    CompilerOptions, ImportMeta, JavascriptParserCommonjsExportsOption,
    JavascriptParserCommonjsOptions, JavascriptParserOptions, Optimization, OutputOptions,
    SideEffectOption,
};
use rspack_plugin_javascript::parser::{
    JavaScriptParser, JavascriptParserHooks, JavascriptParserPlugin,
};
use rspack_plugin_javascript::runtime_requirements::{
    legacy_require_regex, ParserRuntimeRequirementsData, RuntimeGlobals, RuntimeTemplate,
};

struct Template;

impl RuntimeTemplate for Template {
    fn render_runtime_globals_without_adding(&self, global: RuntimeGlobals) -> String {
        match global {
            RuntimeGlobals::Require => "__req__".to_string(),
            RuntimeGlobals::Module => "__mod__".to_string(),
            RuntimeGlobals::Exports => "__exp__".to_string(),
        }
    }
}

fn requirements() -> ParserRuntimeRequirementsData {
    let regex = legacy_require_regex().unwrap();
    ParserRuntimeRequirementsData::new(&Template, regex)
}

/// Hooks that remember who tapped them.
#[derive(Default)]
struct Hooks(Vec<String>);

impl JavascriptParserHooks for Hooks {
    fn apply_builtin(
        mut self,
        plugin: BuiltinPlugin<'_>,
        _requirements: &ParserRuntimeRequirementsData,
    ) -> Self {
        self.0.push(format!("{:?}", plugin));
        self
    }
}

struct Plugin(&'static str);

impl JavascriptParserPlugin<Hooks> for Plugin {
    fn apply(&self, mut hooks: Hooks, requirements: &ParserRuntimeRequirementsData) -> Hooks {
        hooks.0.push(format!("{} {}", self.0, requirements.require));
        hooks
    }
}

fn compiler_options() -> CompilerOptions {
    CompilerOptions {
        amd: false,
        node: false,
        output: OutputOptions { module: false },
        optimization: Optimization {
            inline_exports: false,
            inner_graph: false,
            side_effects: SideEffectOption::False,
        },
    }
}

fn javascript_options() -> JavascriptParserOptions {
    JavascriptParserOptions {
        import_meta: None,
        commonjs: None,
        worker: Some(vec!["Worker".to_string()]),
        jsx: None,
    }
}

fn names(
    compiler_options: &CompilerOptions,
    javascript_options: &JavascriptParserOptions,
    module_type: ModuleType,
) -> Vec<String> {
    builtin_plugins(compiler_options, javascript_options, &module_type)
        .iter()
        .map(|plugin| format!("{:?}", plugin))
        .collect()
}

const BASIC: [&str; 8] = [
    "InitializeEvaluating",
    "JavascriptMetaInfoPlugin",
    "CheckVarDeclaratorIdent",
    "ConstPlugin",
    "UseStrictPlugin",
    "RequireContextDependencyParserPlugin",
    "RequireEnsureDependenciesBlockParserPlugin",
    "CompatibilityPlugin",
];

const JS: [&str; 6] = [
    "IsIncludedPlugin",
    "ExportsInfoApiPlugin",
    "APIPlugin { output_module: false }",
    "ImportParserPlugin",
    "WorkerPlugin([\"Worker\"])",
    "OverrideStrictPlugin",
];

fn joined(parts: Vec<&[&str]>) -> Vec<String> {
    parts.concat().iter().map(|name| name.to_string()).collect()
}

#[test]
fn an_es_module_gets_the_esm_plugins() {
    assert_eq!(
        names(&compiler_options(), &javascript_options(), ModuleType::JsEsm),
        joined(vec![
            &BASIC,
            &[
                "ESMTopLevelThisParserPlugin",
                "ESMDetectionParserPlugin",
                "ImportMetaContextDependencyParserPlugin",
                "ImportMetaDisabledPlugin",
                "ESMImportDependencyParserPlugin",
                "ESMExportDependencyParserPlugin",
                "NodeStuffPlugin { handle_cjs: false, handle_esm: true }",
            ],
            &JS,
        ])
    );
}

#[test]
fn a_script_gets_the_commonjs_plugins() {
    assert_eq!(
        names(&compiler_options(), &javascript_options(), ModuleType::JsDynamic),
        joined(vec![
            &BASIC,
            &[
                "CommonJsImportsParserPlugin",
                "CommonJsPlugin",
                "CommonJsExportsParserPlugin { skip_in_esm: false }",
            ],
            &JS,
        ])
    );
}

#[test]
fn everything_switched_on_comes_in_order() {
    let compiler_options = CompilerOptions {
        amd: true,
        node: true,
        output: OutputOptions { module: false },
        optimization: Optimization {
            inline_exports: true,
            inner_graph: true,
            side_effects: SideEffectOption::True,
        },
    };
    let mut javascript_options = javascript_options();
    javascript_options.import_meta = Some(ImportMeta::Enabled);
    javascript_options.commonjs = Some(JavascriptParserCommonjsOptions {
        exports: JavascriptParserCommonjsExportsOption::SkipInEsm,
    });
    assert_eq!(
        names(&compiler_options, &javascript_options, ModuleType::JsAuto),
        joined(vec![
            &BASIC,
            &[
                "ESMTopLevelThisParserPlugin",
                "ESMDetectionParserPlugin",
                "ImportMetaContextDependencyParserPlugin",
                "ImportMetaPlugin(Enabled)",
                "ESMImportDependencyParserPlugin",
                "ESMExportDependencyParserPlugin",
                "AMDRequireDependenciesBlockParserPlugin",
                "AMDDefineDependencyParserPlugin",
                "AMDParserPlugin",
                "CommonJsImportsParserPlugin",
                "CommonJsPlugin",
                "CommonJsExportsParserPlugin { skip_in_esm: true }",
                "NodeStuffPlugin { handle_cjs: true, handle_esm: true }",
            ],
            &JS,
            &["InlineConstPlugin", "InnerGraphPlugin", "SideEffectsParserPlugin"],
        ])
    );
}

#[test]
fn other_modules_need_no_worker_and_get_basic_plugins() {
    let mut javascript_options = javascript_options();
    javascript_options.worker = None;
    let mut compiler_options = compiler_options();
    compiler_options.amd = true;
    compiler_options.node = true;
    compiler_options.optimization.inner_graph = true;
    assert_eq!(
        names(&compiler_options, &javascript_options, ModuleType::Other(3)),
        joined(vec![&BASIC, &["InnerGraphPlugin"]])
    );
}

#[test]
fn import_meta_is_handled_by_exactly_one_plugin() {
    let cases = vec![
        (None, "ImportMetaDisabledPlugin"),
        (Some(ImportMeta::Disabled), "ImportMetaDisabledPlugin"),
        (Some(ImportMeta::Enabled), "ImportMetaPlugin(Enabled)"),
        (Some(ImportMeta::PreserveUnknown), "ImportMetaPlugin(PreserveUnknown)"),
    ];
    for (import_meta, expected) in cases {
        let mut javascript_options = javascript_options();
        javascript_options.import_meta = import_meta;
        let names = names(&compiler_options(), &javascript_options, ModuleType::JsEsm);
        let found: Vec<&String> = names
            .iter()
            .filter(|name| {
                name.starts_with("ImportMetaPlugin") || name.starts_with("ImportMetaDisabled")
            })
            .collect();
        assert_eq!(found, vec![expected]);
    }
}

#[test]
fn commonjs_exports_can_be_disabled() {
    let mut javascript_options = javascript_options();
    javascript_options.commonjs = Some(JavascriptParserCommonjsOptions {
        exports: JavascriptParserCommonjsExportsOption::Disable,
    });
    let names = names(&compiler_options(), &javascript_options, ModuleType::JsDynamic);
    assert!(names.contains(&"CommonJsPlugin".to_string()));
    assert!(!names.iter().any(|name| name.starts_with("CommonJsExportsParserPlugin")));
}

#[test]
fn scripts_get_node_stand_ins_only_if_configured() {
    let mut compiler_options = compiler_options();
    compiler_options.node = true;
    let names = names(&compiler_options, &javascript_options(), ModuleType::JsDynamic);
    assert!(names
        .contains(&"NodeStuffPlugin { handle_cjs: true, handle_esm: false }".to_string()));
}

#[test]
fn a_flagged_side_effect_option_is_not_true() {
    assert!(SideEffectOption::True.is_true());
    assert!(!SideEffectOption::False.is_true());
    assert!(!SideEffectOption::Flag.is_true());
}

#[test]
fn added_plugins_come_before_the_bundlers_own() {
    let mut parser: JavaScriptParser<Plugin, Hooks> = JavaScriptParser::default();
    parser.add_parser_plugin(Plugin("one"));
    parser.add_parser_plugin(Plugin("two"));
    assert!(!parser.hooks_initialized());
    let hooks = parser.get_or_init_hooks(
        &compiler_options(),
        &javascript_options(),
        &ModuleType::JsDynamic,
        &requirements(),
    );
    assert!(parser.hooks_initialized());
    assert_eq!(hooks.0[..2], ["one __req__".to_string(), "two __req__".to_string()]);
    assert_eq!(
        hooks.0[2..],
        names(&compiler_options(), &javascript_options(), ModuleType::JsDynamic)
    );
}

#[test]
fn hooks_are_created_once() {
    let mut parser: JavaScriptParser<Plugin, Hooks> = JavaScriptParser::default();
    let first = parser.get_or_init_hooks(
        &compiler_options(),
        &javascript_options(),
        &ModuleType::JsEsm,
        &requirements(),
    );
    let mut other = compiler_options();
    other.optimization.inline_exports = true;
    let mut no_worker = javascript_options();
    no_worker.worker = None;
    let second =
        parser.get_or_init_hooks(&other, &no_worker, &ModuleType::JsDynamic, &requirements());
    assert!(Arc::ptr_eq(&first, &second));
}

#[test]
fn the_requirements_hold_the_templates_names() {
    let data = requirements();
    assert_eq!(data.require, "__req__");
    assert_eq!(data.module, "__mod__");
    assert_eq!(data.exports, "__exp__");
}

#[test]
fn the_legacy_regex_finds_members_of_require() {
    let regex = legacy_require_regex().unwrap();
    assert_eq!(regex.as_str(), "__webpack_require__\\s*(!?\\.)");
    assert!(regex.is_match("__webpack_require__.h"));
    assert!(regex.is_match("__webpack_require__ !.h"));
    assert!(!regex.is_match("__webpack_require__(1)"));
}

#[test]
fn an_expression_that_does_not_compile_is_an_error() {
    let outcome = rspack_plugin_javascript::runtime_requirements::compiled_regex(
        regex::Regex::new("("),
    );
    assert!(matches!(
        outcome,
        Err(rspack_plugin_javascript::runtime_requirements::RegexError::NotCompiled)
    ));
}

#[test]
fn a_module_of_either_kind_gets_what_both_kinds_get() {
    for node in [false, true] {
        let mut compiler_options = compiler_options();
        compiler_options.amd = true;
        compiler_options.node = node;
        let plugins = |module_type: ModuleType| {
            let (node, mut rest): (Vec<String>, Vec<String>) =
                names(&compiler_options, &javascript_options(), module_type)
                    .into_iter()
                    .partition(|name| name.starts_with("NodeStuffPlugin"));
            rest.sort();
            (node, rest)
        };
        let (auto_node, auto_rest) = plugins(ModuleType::JsAuto);
        let (_, mut both) = plugins(ModuleType::JsEsm);
        both.extend(plugins(ModuleType::JsDynamic).1);
        both.sort();
        both.dedup();
        assert_eq!(auto_rest, both);
        assert_eq!(
            auto_node,
            vec![format!("NodeStuffPlugin {{ handle_cjs: {}, handle_esm: true }}", node)]
        );
    }
}
