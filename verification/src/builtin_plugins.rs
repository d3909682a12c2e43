//! The parser plugins that come with the bundler, and which of them a module gets.

use vstd::prelude::*;

use crate::module_type::ModuleType;
use crate::options::{
    CompilerOptions, ImportMeta, JavascriptParserCommonjsExportsOption, JavascriptParserOptions,
    SideEffectOption,
};

verus! {

/// A parser plugin that comes with the bundler, with what it is made with.
#[derive(Clone, Copy, Debug)]
pub enum BuiltinPlugin<'a> {
    InitializeEvaluating,
    JavascriptMetaInfoPlugin,
    CheckVarDeclaratorIdent,
    ConstPlugin,
    UseStrictPlugin,
    RequireContextDependencyParserPlugin,
    RequireEnsureDependenciesBlockParserPlugin,
    CompatibilityPlugin,
    ESMTopLevelThisParserPlugin,
    ESMDetectionParserPlugin,
    ImportMetaContextDependencyParserPlugin,
    ImportMetaPlugin(ImportMeta),
    ImportMetaDisabledPlugin,
    ESMImportDependencyParserPlugin,
    ESMExportDependencyParserPlugin,
    AMDRequireDependenciesBlockParserPlugin,
    AMDDefineDependencyParserPlugin,
    AMDParserPlugin,
    CommonJsImportsParserPlugin,
    CommonJsPlugin,
    CommonJsExportsParserPlugin { skip_in_esm: bool },
    NodeStuffPlugin { handle_cjs: bool, handle_esm: bool },
    IsIncludedPlugin,
    ExportsInfoApiPlugin,
    APIPlugin { output_module: bool },
    ImportParserPlugin,
    WorkerPlugin(&'a Vec<String>),
    OverrideStrictPlugin,
    InlineConstPlugin,
    InnerGraphPlugin,
    SideEffectsParserPlugin,
}

/// A module of this type may hold ES module syntax.
pub open spec fn may_be_esm(module_type: ModuleType) -> bool {
    module_type is JsAuto || module_type is JsEsm
}

/// A module of this type may hold CommonJS.
pub open spec fn may_be_cjs(module_type: ModuleType) -> bool {
    module_type is JsAuto || module_type is JsDynamic
}

/// A module of this type is a JavaScript module.
pub open spec fn is_js(module_type: ModuleType) -> bool {
    may_be_esm(module_type) || may_be_cjs(module_type)
}

/// The plugins that every module gets.
pub open spec fn basic_plugins<'a>() -> Seq<BuiltinPlugin<'a>> {
    seq![
        BuiltinPlugin::InitializeEvaluating,
        BuiltinPlugin::JavascriptMetaInfoPlugin,
        BuiltinPlugin::CheckVarDeclaratorIdent,
        BuiltinPlugin::ConstPlugin,
        BuiltinPlugin::UseStrictPlugin,
        BuiltinPlugin::RequireContextDependencyParserPlugin,
        BuiltinPlugin::RequireEnsureDependenciesBlockParserPlugin,
        BuiltinPlugin::CompatibilityPlugin,
    ]
}

/// How `import.meta` is treated: by a plugin that evaluates it, unless the options
/// say nothing of it or disable it.
pub open spec fn import_meta_plugin<'a>(import_meta: Option<ImportMeta>) -> BuiltinPlugin<'a> {
    match import_meta {
        Some(ImportMeta::Enabled) => BuiltinPlugin::ImportMetaPlugin(ImportMeta::Enabled),
        Some(ImportMeta::PreserveUnknown) => BuiltinPlugin::ImportMetaPlugin(
            ImportMeta::PreserveUnknown,
        ),
        _ => BuiltinPlugin::ImportMetaDisabledPlugin,
    }
}

/// The plugins for ES module syntax.
pub open spec fn esm_plugins<'a>(
    javascript_options: JavascriptParserOptions,
    module_type: ModuleType,
) -> Seq<BuiltinPlugin<'a>> {
    if may_be_esm(module_type) {
        seq![
            BuiltinPlugin::ESMTopLevelThisParserPlugin,
            BuiltinPlugin::ESMDetectionParserPlugin,
            BuiltinPlugin::ImportMetaContextDependencyParserPlugin,
            import_meta_plugin(javascript_options.import_meta),
            BuiltinPlugin::ESMImportDependencyParserPlugin,
            BuiltinPlugin::ESMExportDependencyParserPlugin,
        ]
    } else {
        Seq::empty()
    }
}

/// The plugins for AMD.
pub open spec fn amd_plugins<'a>(
    compiler_options: CompilerOptions,
    module_type: ModuleType,
) -> Seq<BuiltinPlugin<'a>> {
    if compiler_options.amd && may_be_cjs(module_type) {
        seq![
            BuiltinPlugin::AMDRequireDependenciesBlockParserPlugin,
            BuiltinPlugin::AMDDefineDependencyParserPlugin,
            BuiltinPlugin::AMDParserPlugin,
        ]
    } else {
        Seq::empty()
    }
}

/// Whether CommonJS exports are looked for: they are, unless the options say otherwise.
pub open spec fn commonjs_exports(
    javascript_options: JavascriptParserOptions,
) -> JavascriptParserCommonjsExportsOption {
    match javascript_options.commonjs {
        Some(commonjs) => commonjs.exports,
        None => JavascriptParserCommonjsExportsOption::Enable,
    }
}

/// The plugins for CommonJS.
pub open spec fn cjs_plugins<'a>(
    javascript_options: JavascriptParserOptions,
    module_type: ModuleType,
) -> Seq<BuiltinPlugin<'a>> {
    if !may_be_cjs(module_type) {
        Seq::empty()
    } else {
        let imports = seq![
            BuiltinPlugin::CommonJsImportsParserPlugin,
            BuiltinPlugin::CommonJsPlugin,
        ];
        match commonjs_exports(javascript_options) {
            JavascriptParserCommonjsExportsOption::Disable => imports,
            JavascriptParserCommonjsExportsOption::Enable => imports.push(
                BuiltinPlugin::CommonJsExportsParserPlugin { skip_in_esm: false },
            ),
            JavascriptParserCommonjsExportsOption::SkipInEsm => imports.push(
                BuiltinPlugin::CommonJsExportsParserPlugin { skip_in_esm: true },
            ),
        }
    }
}

/// The plugin for the Node.js stand-ins. CommonJS modules get it if the stand-ins are
/// configured, ES modules always.
pub open spec fn node_plugins<'a>(
    compiler_options: CompilerOptions,
    module_type: ModuleType,
) -> Seq<BuiltinPlugin<'a>> {
    let handle_cjs = may_be_cjs(module_type) && compiler_options.node;
    let handle_esm = may_be_esm(module_type);
    if handle_cjs || handle_esm {
        seq![BuiltinPlugin::NodeStuffPlugin { handle_cjs, handle_esm }]
    } else {
        Seq::empty()
    }
}

/// The plugins that every JavaScript module gets.
pub open spec fn js_plugins<'a>(
    compiler_options: CompilerOptions,
    javascript_options: JavascriptParserOptions,
    module_type: ModuleType,
) -> Seq<BuiltinPlugin<'a>> {
    if is_js(module_type) {
        seq![
            BuiltinPlugin::IsIncludedPlugin,
            BuiltinPlugin::ExportsInfoApiPlugin,
            BuiltinPlugin::APIPlugin { output_module: compiler_options.output.module },
            BuiltinPlugin::ImportParserPlugin,
            BuiltinPlugin::WorkerPlugin(&javascript_options.worker->0),
            BuiltinPlugin::OverrideStrictPlugin,
        ]
    } else {
        Seq::empty()
    }
}

/// A plugin, if a condition holds.
pub open spec fn plugin_if<'a>(condition: bool, plugin: BuiltinPlugin<'a>) -> Seq<
    BuiltinPlugin<'a>,
> {
    if condition {
        seq![plugin]
    } else {
        Seq::empty()
    }
}

/// The plugins that gather what optimizations need.
pub open spec fn optimization_plugins<'a>(compiler_options: CompilerOptions) -> Seq<
    BuiltinPlugin<'a>,
> {
    plugin_if(compiler_options.optimization.inline_exports, BuiltinPlugin::InlineConstPlugin)
        + plugin_if(compiler_options.optimization.inner_graph, BuiltinPlugin::InnerGraphPlugin)
        + plugin_if(
        compiler_options.optimization.side_effects is True,
        BuiltinPlugin::SideEffectsParserPlugin,
    )
}

/// The plugins that a module gets, in the order in which they are applied.
pub open spec fn plugins_of<'a>(
    compiler_options: CompilerOptions,
    javascript_options: JavascriptParserOptions,
    module_type: ModuleType,
) -> Seq<BuiltinPlugin<'a>> {
    basic_plugins() + esm_plugins(javascript_options, module_type) + amd_plugins(
        compiler_options,
        module_type,
    ) + cjs_plugins(javascript_options, module_type) + node_plugins(compiler_options, module_type)
        + js_plugins(compiler_options, javascript_options, module_type) + optimization_plugins(
        compiler_options,
    )
}

/// The options name the worker calls, as they must for a JavaScript module.
pub open spec fn worker_known(
    javascript_options: JavascriptParserOptions,
    module_type: ModuleType,
) -> bool {
    is_js(module_type) ==> javascript_options.worker is Some
}

/// Appends the plugins for ES module syntax.
fn push_esm_plugins<'a>(
    plugins: &mut Vec<BuiltinPlugin<'a>>,
    javascript_options: &JavascriptParserOptions,
    module_type: &ModuleType,
)
    ensures
        final(plugins)@ == old(plugins)@ + esm_plugins(*javascript_options, *module_type),
{
    if module_type.is_js_auto() || module_type.is_js_esm() {
        plugins.push(BuiltinPlugin::ESMTopLevelThisParserPlugin);
        plugins.push(BuiltinPlugin::ESMDetectionParserPlugin);
        plugins.push(BuiltinPlugin::ImportMetaContextDependencyParserPlugin);
        match javascript_options.import_meta {
            Some(ImportMeta::Enabled) => {
                plugins.push(BuiltinPlugin::ImportMetaPlugin(ImportMeta::Enabled));
            },
            Some(ImportMeta::PreserveUnknown) => {
                plugins.push(BuiltinPlugin::ImportMetaPlugin(ImportMeta::PreserveUnknown));
            },
            _ => {
                plugins.push(BuiltinPlugin::ImportMetaDisabledPlugin);
            },
        }
        plugins.push(BuiltinPlugin::ESMImportDependencyParserPlugin);
        plugins.push(BuiltinPlugin::ESMExportDependencyParserPlugin);
    }
}

/// Appends the plugins for AMD.
fn push_amd_plugins<'a>(
    plugins: &mut Vec<BuiltinPlugin<'a>>,
    compiler_options: &CompilerOptions,
    module_type: &ModuleType,
)
    ensures
        final(plugins)@ == old(plugins)@ + amd_plugins(*compiler_options, *module_type),
{
    if compiler_options.amd && (module_type.is_js_auto() || module_type.is_js_dynamic()) {
        plugins.push(BuiltinPlugin::AMDRequireDependenciesBlockParserPlugin);
        plugins.push(BuiltinPlugin::AMDDefineDependencyParserPlugin);
        plugins.push(BuiltinPlugin::AMDParserPlugin);
    }
}

/// Appends the plugins for CommonJS.
fn push_cjs_plugins<'a>(
    plugins: &mut Vec<BuiltinPlugin<'a>>,
    javascript_options: &JavascriptParserOptions,
    module_type: &ModuleType,
)
    ensures
        final(plugins)@ == old(plugins)@ + cjs_plugins(*javascript_options, *module_type),
{
    if module_type.is_js_auto() || module_type.is_js_dynamic() {
        plugins.push(BuiltinPlugin::CommonJsImportsParserPlugin);
        plugins.push(BuiltinPlugin::CommonJsPlugin);
        let commonjs_exports = match javascript_options.commonjs {
            Some(commonjs) => commonjs.exports,
            None => JavascriptParserCommonjsExportsOption::Enable,
        };
        if commonjs_exports != JavascriptParserCommonjsExportsOption::Disable {
            plugins.push(
                BuiltinPlugin::CommonJsExportsParserPlugin {
                    skip_in_esm: commonjs_exports
                        == JavascriptParserCommonjsExportsOption::SkipInEsm,
                },
            );
        }
    }
}

/// Appends the plugin for the Node.js stand-ins.
fn push_node_plugins<'a>(
    plugins: &mut Vec<BuiltinPlugin<'a>>,
    compiler_options: &CompilerOptions,
    module_type: &ModuleType,
)
    ensures
        final(plugins)@ == old(plugins)@ + node_plugins(*compiler_options, *module_type),
{
    let handle_cjs = (module_type.is_js_auto() || module_type.is_js_dynamic())
        && compiler_options.node;
    let handle_esm = module_type.is_js_auto() || module_type.is_js_esm();
    if handle_cjs || handle_esm {
        plugins.push(BuiltinPlugin::NodeStuffPlugin { handle_cjs, handle_esm });
    }
}

/// Appends the plugins that every JavaScript module gets.
fn push_js_plugins<'a>(
    plugins: &mut Vec<BuiltinPlugin<'a>>,
    compiler_options: &CompilerOptions,
    javascript_options: &'a JavascriptParserOptions,
    module_type: &ModuleType,
)
    requires
        worker_known(*javascript_options, *module_type),
    ensures
        final(plugins)@ == old(plugins)@ + js_plugins(
            *compiler_options,
            *javascript_options,
            *module_type,
        ),
{
    if module_type.is_js_auto() || module_type.is_js_dynamic() || module_type.is_js_esm() {
        plugins.push(BuiltinPlugin::IsIncludedPlugin);
        plugins.push(BuiltinPlugin::ExportsInfoApiPlugin);
        plugins.push(BuiltinPlugin::APIPlugin { output_module: compiler_options.output.module });
        plugins.push(BuiltinPlugin::ImportParserPlugin);
        plugins.push(BuiltinPlugin::WorkerPlugin(javascript_options.worker.as_ref().unwrap()));
        plugins.push(BuiltinPlugin::OverrideStrictPlugin);
    }
}

/// Appends the plugins that gather what optimizations need.
fn push_optimization_plugins<'a>(
    plugins: &mut Vec<BuiltinPlugin<'a>>,
    compiler_options: &CompilerOptions,
)
    ensures
        final(plugins)@ == old(plugins)@ + optimization_plugins(*compiler_options),
{
    if compiler_options.optimization.inline_exports {
        plugins.push(BuiltinPlugin::InlineConstPlugin);
    }
    if compiler_options.optimization.inner_graph {
        plugins.push(BuiltinPlugin::InnerGraphPlugin);
    }
    if compiler_options.optimization.side_effects.is_true() {
        plugins.push(BuiltinPlugin::SideEffectsParserPlugin);
    }
}

/// The plugins that a module gets, in the order in which they are applied.
pub fn builtin_plugins<'a>(
    compiler_options: &CompilerOptions,
    javascript_options: &'a JavascriptParserOptions,
    module_type: &ModuleType,
) -> (r: Vec<BuiltinPlugin<'a>>)
    requires
        worker_known(*javascript_options, *module_type),
    ensures
        r@ == plugins_of(*compiler_options, *javascript_options, *module_type),
        forall|output_module: bool| #[trigger]
            r@.contains(BuiltinPlugin::APIPlugin { output_module }) <==> (*module_type is JsAuto
                || *module_type is JsDynamic || *module_type is JsEsm) && output_module
                == compiler_options.output.module,
{
    let mut plugins: Vec<BuiltinPlugin<'a>> = vec![
        BuiltinPlugin::InitializeEvaluating,
        BuiltinPlugin::JavascriptMetaInfoPlugin,
        BuiltinPlugin::CheckVarDeclaratorIdent,
        BuiltinPlugin::ConstPlugin,
        BuiltinPlugin::UseStrictPlugin,
        BuiltinPlugin::RequireContextDependencyParserPlugin,
        BuiltinPlugin::RequireEnsureDependenciesBlockParserPlugin,
        BuiltinPlugin::CompatibilityPlugin,
    ];
    assert(plugins@ =~= basic_plugins());
    push_esm_plugins(&mut plugins, javascript_options, module_type);
    push_amd_plugins(&mut plugins, compiler_options, module_type);
    push_cjs_plugins(&mut plugins, javascript_options, module_type);
    push_node_plugins(&mut plugins, compiler_options, module_type);
    push_js_plugins(&mut plugins, compiler_options, javascript_options, module_type);
    push_optimization_plugins(&mut plugins, compiler_options);
    proof {
        assert forall|output_module: bool| #[trigger]
            plugins@.contains(BuiltinPlugin::APIPlugin { output_module }) <==> (*module_type is JsAuto
                || *module_type is JsDynamic || *module_type is JsEsm) && output_module
                == compiler_options.output.module by {
            plugin_comes_iff(
                *compiler_options,
                *javascript_options,
                *module_type,
                BuiltinPlugin::APIPlugin { output_module },
            );
        }
    }
    plugins
}

/// The place of a plugin among all plugins, whatever it is made with.
pub open spec fn rank(plugin: BuiltinPlugin<'_>) -> int {
    match plugin {
        BuiltinPlugin::InitializeEvaluating => 0,
        BuiltinPlugin::JavascriptMetaInfoPlugin => 1,
        BuiltinPlugin::CheckVarDeclaratorIdent => 2,
        BuiltinPlugin::ConstPlugin => 3,
        BuiltinPlugin::UseStrictPlugin => 4,
        BuiltinPlugin::RequireContextDependencyParserPlugin => 5,
        BuiltinPlugin::RequireEnsureDependenciesBlockParserPlugin => 6,
        BuiltinPlugin::CompatibilityPlugin => 7,
        BuiltinPlugin::ESMTopLevelThisParserPlugin => 8,
        BuiltinPlugin::ESMDetectionParserPlugin => 9,
        BuiltinPlugin::ImportMetaContextDependencyParserPlugin => 10,
        BuiltinPlugin::ImportMetaPlugin(_) => 11,
        BuiltinPlugin::ImportMetaDisabledPlugin => 12,
        BuiltinPlugin::ESMImportDependencyParserPlugin => 13,
        BuiltinPlugin::ESMExportDependencyParserPlugin => 14,
        BuiltinPlugin::AMDRequireDependenciesBlockParserPlugin => 15,
        BuiltinPlugin::AMDDefineDependencyParserPlugin => 16,
        BuiltinPlugin::AMDParserPlugin => 17,
        BuiltinPlugin::CommonJsImportsParserPlugin => 18,
        BuiltinPlugin::CommonJsPlugin => 19,
        BuiltinPlugin::CommonJsExportsParserPlugin { .. } => 20,
        BuiltinPlugin::NodeStuffPlugin { .. } => 21,
        BuiltinPlugin::IsIncludedPlugin => 22,
        BuiltinPlugin::ExportsInfoApiPlugin => 23,
        BuiltinPlugin::APIPlugin { .. } => 24,
        BuiltinPlugin::ImportParserPlugin => 25,
        BuiltinPlugin::WorkerPlugin(_) => 26,
        BuiltinPlugin::OverrideStrictPlugin => 27,
        BuiltinPlugin::InlineConstPlugin => 28,
        BuiltinPlugin::InnerGraphPlugin => 29,
        BuiltinPlugin::SideEffectsParserPlugin => 30,
    }
}

/// The plugins come in the order of their ranks, no rank twice, and all ranks are
/// from `low` up to, but not reaching, `high`.
pub open spec fn ranked(plugins: Seq<BuiltinPlugin<'_>>, low: int, high: int) -> bool {
    &&& forall|i: int| 0 <= i < plugins.len() ==> low <= rank(#[trigger] plugins[i]) < high
    &&& forall|i: int, j: int|
        0 <= i < j < plugins.len() ==> rank(#[trigger] plugins[i]) < rank(#[trigger] plugins[j])
}

proof fn ranked_join(
    first: Seq<BuiltinPlugin<'_>>,
    second: Seq<BuiltinPlugin<'_>>,
    low: int,
    mid: int,
    high: int,
)
    requires
        ranked(first, low, mid),
        ranked(second, mid, high),
        low <= mid <= high,
    ensures
        ranked(first + second, low, high),
{
    let both = first + second;
    assert forall|i: int, j: int| 0 <= i < j < both.len() implies rank(#[trigger] both[i]) < rank(
        #[trigger] both[j],
    ) by {
        if j < first.len() {
            assert(both[i] == first[i] && both[j] == first[j]);
        } else if i >= first.len() {
            assert(both[i] == second[i - first.len()] && both[j] == second[j - first.len()]);
        } else {
            assert(both[i] == first[i] && both[j] == second[j - first.len()]);
        }
    }
}

proof fn segments_ranked(
    compiler_options: CompilerOptions,
    javascript_options: JavascriptParserOptions,
    module_type: ModuleType,
)
    ensures
        ranked(basic_plugins(), 0, 8),
        ranked(esm_plugins(javascript_options, module_type), 8, 15),
        ranked(amd_plugins(compiler_options, module_type), 15, 18),
        ranked(cjs_plugins(javascript_options, module_type), 18, 21),
        ranked(node_plugins(compiler_options, module_type), 21, 22),
        ranked(js_plugins(compiler_options, javascript_options, module_type), 22, 28),
        ranked(optimization_plugins(compiler_options), 28, 31),
{
}

/// Whatever the options and the module, the plugins are applied in one fixed order
/// and none of them twice.
pub proof fn plugins_in_fixed_order(
    compiler_options: CompilerOptions,
    javascript_options: JavascriptParserOptions,
    module_type: ModuleType,
)
    ensures
        ranked(plugins_of(compiler_options, javascript_options, module_type), 0, 31),
{
    let basic = basic_plugins();
    let esm = esm_plugins(javascript_options, module_type);
    let amd = amd_plugins(compiler_options, module_type);
    let cjs = cjs_plugins(javascript_options, module_type);
    let node = node_plugins(compiler_options, module_type);
    let js = js_plugins(compiler_options, javascript_options, module_type);
    let optimization = optimization_plugins(compiler_options);
    segments_ranked(compiler_options, javascript_options, module_type);
    ranked_join(basic, esm, 0, 8, 15);
    ranked_join(basic + esm, amd, 0, 15, 18);
    ranked_join(basic + esm + amd, cjs, 0, 18, 21);
    ranked_join(basic + esm + amd + cjs, node, 0, 21, 22);
    ranked_join(basic + esm + amd + cjs + node, js, 0, 22, 28);
    ranked_join(basic + esm + amd + cjs + node + js, optimization, 0, 28, 31);
}

/// The worker calls have to be named for JavaScript modules, and for no others.
pub proof fn worker_needed_for_javascript(
    javascript_options: JavascriptParserOptions,
    module_type: ModuleType,
)
    ensures
        worker_known(javascript_options, module_type) <==> javascript_options.worker is Some || !(
        module_type is JsAuto || module_type is JsDynamic || module_type is JsEsm),
{
}

/// A module that is not JavaScript gets the basic plugins and those for
/// optimizations, and needs no worker calls.
pub proof fn other_modules_get_no_syntax_plugins(
    compiler_options: CompilerOptions,
    javascript_options: JavascriptParserOptions,
    n: u32,
)
    ensures
        worker_known(javascript_options, ModuleType::Other(n)),
        plugins_of(compiler_options, javascript_options, ModuleType::Other(n)) == basic_plugins()
            + optimization_plugins(compiler_options),
{
    assert(plugins_of(compiler_options, javascript_options, ModuleType::Other(n))
        =~= basic_plugins() + optimization_plugins(compiler_options));
}

/// A module that is certainly an ES module gets no AMD and no CommonJS plugin.
pub proof fn esm_gets_no_cjs_plugins(
    compiler_options: CompilerOptions,
    javascript_options: JavascriptParserOptions,
)
    ensures
        amd_plugins(compiler_options, ModuleType::JsEsm).len() == 0,
        cjs_plugins(javascript_options, ModuleType::JsEsm).len() == 0,
        node_plugins(compiler_options, ModuleType::JsEsm) == seq![
            BuiltinPlugin::NodeStuffPlugin { handle_cjs: false, handle_esm: true },
        ],
{
}

/// A module that is certainly a script gets no ES module plugin, and the Node.js
/// stand-ins only if they are configured.
pub proof fn scripts_get_no_esm_plugins(
    compiler_options: CompilerOptions,
    javascript_options: JavascriptParserOptions,
)
    ensures
        esm_plugins(javascript_options, ModuleType::JsDynamic).len() == 0,
        node_plugins(compiler_options, ModuleType::JsDynamic) == plugin_if(
            compiler_options.node,
            BuiltinPlugin::NodeStuffPlugin { handle_cjs: true, handle_esm: false },
        ),
{
}

proof fn contains_join(
    first: Seq<BuiltinPlugin<'_>>,
    second: Seq<BuiltinPlugin<'_>>,
    plugin: BuiltinPlugin<'_>,
)
    ensures
        (first + second).contains(plugin) <==> first.contains(plugin) || second.contains(plugin),
{
    let both = first + second;
    if first.contains(plugin) {
        let i = choose|i: int| 0 <= i < first.len() && first[i] == plugin;
        assert(both[i] == plugin);
    }
    if second.contains(plugin) {
        let i = choose|i: int| 0 <= i < second.len() && second[i] == plugin;
        assert(both[first.len() + i] == plugin);
    }
    if both.contains(plugin) {
        let i = choose|i: int| 0 <= i < both.len() && both[i] == plugin;
        if i < first.len() {
            assert(first[i] == plugin);
        } else {
            assert(second[i - first.len()] == plugin);
        }
    }
}

/// A module gets a plugin exactly if one of the groups holds it.
proof fn contained_in_group(
    compiler_options: CompilerOptions,
    javascript_options: JavascriptParserOptions,
    module_type: ModuleType,
    plugin: BuiltinPlugin<'_>,
)
    ensures
        plugins_of(compiler_options, javascript_options, module_type).contains(plugin) <==> {
            ||| basic_plugins().contains(plugin)
            ||| esm_plugins(javascript_options, module_type).contains(plugin)
            ||| amd_plugins(compiler_options, module_type).contains(plugin)
            ||| cjs_plugins(javascript_options, module_type).contains(plugin)
            ||| node_plugins(compiler_options, module_type).contains(plugin)
            ||| js_plugins(compiler_options, javascript_options, module_type).contains(plugin)
            ||| optimization_plugins(compiler_options).contains(plugin)
        },
{
    let basic = basic_plugins();
    let esm = esm_plugins(javascript_options, module_type);
    let amd = amd_plugins(compiler_options, module_type);
    let cjs = cjs_plugins(javascript_options, module_type);
    let node = node_plugins(compiler_options, module_type);
    let js = js_plugins(compiler_options, javascript_options, module_type);
    let optimization = optimization_plugins(compiler_options);
    contains_join(basic, esm, plugin);
    contains_join(basic + esm, amd, plugin);
    contains_join(basic + esm + amd, cjs, plugin);
    contains_join(basic + esm + amd + cjs, node, plugin);
    contains_join(basic + esm + amd + cjs + node, js, plugin);
    contains_join(basic + esm + amd + cjs + node + js, optimization, plugin);
}

/// The plugin for the Node.js stand-ins is only in the group of that name.
proof fn node_plugin_in_its_group(
    compiler_options: CompilerOptions,
    javascript_options: JavascriptParserOptions,
    module_type: ModuleType,
    plugin: BuiltinPlugin<'_>,
)
    ensures
        plugin is NodeStuffPlugin ==> (plugins_of(
            compiler_options,
            javascript_options,
            module_type,
        ).contains(plugin) <==> node_plugins(compiler_options, module_type).contains(plugin)),
        plugin !is NodeStuffPlugin ==> !node_plugins(compiler_options, module_type).contains(plugin),
{
    contained_in_group(compiler_options, javascript_options, module_type, plugin);
    segments_ranked(compiler_options, javascript_options, module_type);
}

/// Some plugin stands in for Node.js in scripts.
pub open spec fn handles_cjs(plugins: Seq<BuiltinPlugin<'_>>) -> bool {
    exists|handle_esm: bool| #[trigger]
        plugins.contains(BuiltinPlugin::NodeStuffPlugin { handle_cjs: true, handle_esm })
}

/// Some plugin stands in for Node.js in ES modules.
pub open spec fn handles_esm(plugins: Seq<BuiltinPlugin<'_>>) -> bool {
    exists|handle_cjs: bool| #[trigger]
        plugins.contains(BuiltinPlugin::NodeStuffPlugin { handle_cjs, handle_esm: true })
}

/// A module of either kind gets the plugins that an ES module gets and those that a
/// script gets, and no others. The one for the Node.js stand-ins, which both kinds share,
/// handles what that of either handles. None of them comes twice, and they come in the
/// order that all modules have.
pub proof fn auto_gets_both(
    compiler_options: CompilerOptions,
    javascript_options: JavascriptParserOptions,
)
    ensures
        ({
            let auto_kind = plugins_of(compiler_options, javascript_options, ModuleType::JsAuto);
            let esm = plugins_of(compiler_options, javascript_options, ModuleType::JsEsm);
            let script = plugins_of(compiler_options, javascript_options, ModuleType::JsDynamic);
            &&& forall|plugin: BuiltinPlugin<'_>|
                plugin !is NodeStuffPlugin ==> (#[trigger] auto_kind.contains(plugin)
                    <==> esm.contains(plugin) || script.contains(plugin))
            &&& forall|handle_cjs: bool, handle_esm: bool|
                #[trigger] auto_kind.contains(
                    BuiltinPlugin::NodeStuffPlugin { handle_cjs, handle_esm },
                ) <==> handle_cjs == (handles_cjs(esm) || handles_cjs(script)) && handle_esm == (
                handles_esm(esm) || handles_esm(script))
            &&& auto_kind.no_duplicates()
            &&& ranked(auto_kind, 0, 31)
        }),
{
    let auto_kind = plugins_of(compiler_options, javascript_options, ModuleType::JsAuto);
    let esm = plugins_of(compiler_options, javascript_options, ModuleType::JsEsm);
    let script = plugins_of(compiler_options, javascript_options, ModuleType::JsDynamic);
    plugins_in_fixed_order(compiler_options, javascript_options, ModuleType::JsAuto);
    assert(auto_kind.no_duplicates());
    assert forall|plugin: BuiltinPlugin<'_>|
        plugin !is NodeStuffPlugin implies (#[trigger] auto_kind.contains(plugin)
        <==> esm.contains(plugin) || script.contains(plugin)) by {
        contained_in_group(compiler_options, javascript_options, ModuleType::JsAuto, plugin);
        contained_in_group(compiler_options, javascript_options, ModuleType::JsEsm, plugin);
        contained_in_group(compiler_options, javascript_options, ModuleType::JsDynamic, plugin);
        node_plugin_in_its_group(compiler_options, javascript_options, ModuleType::JsAuto, plugin);
        node_plugin_in_its_group(compiler_options, javascript_options, ModuleType::JsEsm, plugin);
        node_plugin_in_its_group(
            compiler_options,
            javascript_options,
            ModuleType::JsDynamic,
            plugin,
        );
    }
    assert forall|module_type: ModuleType, handle_cjs: bool, handle_esm: bool|
        is_js(module_type) implies (#[trigger] plugins_of(
        compiler_options,
        javascript_options,
        module_type,
    ).contains(BuiltinPlugin::NodeStuffPlugin { handle_cjs, handle_esm }) <==> {
        &&& handle_cjs == (may_be_cjs(module_type) && compiler_options.node)
        &&& handle_esm == may_be_esm(module_type)
        &&& handle_cjs || handle_esm
    }) by {
        let plugin = BuiltinPlugin::NodeStuffPlugin { handle_cjs, handle_esm };
        node_plugin_in_its_group(compiler_options, javascript_options, module_type, plugin);
        let node = node_plugins(compiler_options, module_type);
        if node.len() > 0 {
            assert(node.contains(node[0]));
        }
    }
    assert(esm.contains(BuiltinPlugin::NodeStuffPlugin { handle_cjs: false, handle_esm: true }));
    assert(script.contains(BuiltinPlugin::NodeStuffPlugin { handle_cjs: true, handle_esm: false })
        == compiler_options.node);
}

/// A module gets a plugin under a condition on its type and on one option at most, and a
/// plugin is made with what the options say:
///
/// - the basic plugins come always;
/// - those for ES module syntax come where a module may be an ES module, and the option on
///   `import.meta` chooses between evaluating and disabling it;
/// - those for AMD and CommonJS come where a module may be a script, for AMD only if it is
///   configured, and exports are looked for unless the options disable that;
/// - the Node.js stand-ins handle scripts only if they are configured;
/// - those of all JavaScript come for all three kinds, made with the kind of the output and
///   with the worker calls;
/// - those for optimizations come for every module, each with its own option.
pub proof fn plugin_comes_iff(
    compiler_options: CompilerOptions,
    javascript_options: JavascriptParserOptions,
    module_type: ModuleType,
    plugin: BuiltinPlugin<'_>,
)
    ensures
        ({
            let esm = module_type is JsAuto || module_type is JsEsm;
            let script = module_type is JsAuto || module_type is JsDynamic;
            plugins_of(compiler_options, javascript_options, module_type).contains(plugin)
                <==> match plugin {
                BuiltinPlugin::InitializeEvaluating => true,
                BuiltinPlugin::JavascriptMetaInfoPlugin => true,
                BuiltinPlugin::CheckVarDeclaratorIdent => true,
                BuiltinPlugin::ConstPlugin => true,
                BuiltinPlugin::UseStrictPlugin => true,
                BuiltinPlugin::RequireContextDependencyParserPlugin => true,
                BuiltinPlugin::RequireEnsureDependenciesBlockParserPlugin => true,
                BuiltinPlugin::CompatibilityPlugin => true,
                BuiltinPlugin::ESMTopLevelThisParserPlugin => esm,
                BuiltinPlugin::ESMDetectionParserPlugin => esm,
                BuiltinPlugin::ImportMetaContextDependencyParserPlugin => esm,
                BuiltinPlugin::ImportMetaPlugin(import_meta) => esm
                    && javascript_options.import_meta == Some(import_meta) && import_meta
                    !is Disabled,
                BuiltinPlugin::ImportMetaDisabledPlugin => esm && (
                javascript_options.import_meta is None || javascript_options.import_meta
                    == Some(ImportMeta::Disabled)),
                BuiltinPlugin::ESMImportDependencyParserPlugin => esm,
                BuiltinPlugin::ESMExportDependencyParserPlugin => esm,
                BuiltinPlugin::AMDRequireDependenciesBlockParserPlugin => script
                    && compiler_options.amd,
                BuiltinPlugin::AMDDefineDependencyParserPlugin => script && compiler_options.amd,
                BuiltinPlugin::AMDParserPlugin => script && compiler_options.amd,
                BuiltinPlugin::CommonJsImportsParserPlugin => script,
                BuiltinPlugin::CommonJsPlugin => script,
                BuiltinPlugin::CommonJsExportsParserPlugin { skip_in_esm } => script
                    && match javascript_options.commonjs {
                    None => !skip_in_esm,
                    Some(commonjs) => commonjs.exports !is Disable && skip_in_esm == (
                    commonjs.exports is SkipInEsm),
                },
                BuiltinPlugin::NodeStuffPlugin { handle_cjs, handle_esm } => handle_cjs == (script
                    && compiler_options.node) && handle_esm == esm && (handle_cjs || handle_esm),
                BuiltinPlugin::IsIncludedPlugin => esm || script,
                BuiltinPlugin::ExportsInfoApiPlugin => esm || script,
                BuiltinPlugin::APIPlugin { output_module } => (esm || script) && output_module
                    == compiler_options.output.module,
                BuiltinPlugin::ImportParserPlugin => esm || script,
                BuiltinPlugin::WorkerPlugin(worker) => (esm || script) && *worker
                    == javascript_options.worker->0,
                BuiltinPlugin::OverrideStrictPlugin => esm || script,
                BuiltinPlugin::InlineConstPlugin => compiler_options.optimization.inline_exports,
                BuiltinPlugin::InnerGraphPlugin => compiler_options.optimization.inner_graph,
                BuiltinPlugin::SideEffectsParserPlugin => compiler_options.optimization.side_effects
                    == SideEffectOption::True,
            }
        }),
{
    contained_in_group(compiler_options, javascript_options, module_type, plugin);
    basic_plugin_comes_iff(plugin);
    esm_plugin_comes_iff(javascript_options, module_type, plugin);
    amd_plugin_comes_iff(compiler_options, module_type, plugin);
    cjs_plugin_comes_iff(javascript_options, module_type, plugin);
    node_plugin_comes_iff(compiler_options, module_type, plugin);
    js_plugin_comes_iff(compiler_options, javascript_options, module_type, plugin);
    optimization_plugin_comes_iff(compiler_options, plugin);
}

proof fn basic_plugin_comes_iff(plugin: BuiltinPlugin<'_>)
    ensures
        basic_plugins().contains(plugin) <==> {
            ||| plugin is InitializeEvaluating
            ||| plugin is JavascriptMetaInfoPlugin
            ||| plugin is CheckVarDeclaratorIdent
            ||| plugin is ConstPlugin
            ||| plugin is UseStrictPlugin
            ||| plugin is RequireContextDependencyParserPlugin
            ||| plugin is RequireEnsureDependenciesBlockParserPlugin
            ||| plugin is CompatibilityPlugin
        },
{
    let group = basic_plugins();
    if group.len() > 0 {
        assert(group.contains(group[0]));
    }
    if group.len() > 1 {
        assert(group.contains(group[1]));
    }
    if group.len() > 2 {
        assert(group.contains(group[2]));
    }
    if group.len() > 3 {
        assert(group.contains(group[3]));
    }
    if group.len() > 4 {
        assert(group.contains(group[4]));
    }
    if group.len() > 5 {
        assert(group.contains(group[5]));
    }
    if group.len() > 6 {
        assert(group.contains(group[6]));
    }
    if group.len() > 7 {
        assert(group.contains(group[7]));
    }
}

proof fn esm_plugin_comes_iff(
    javascript_options: JavascriptParserOptions,
    module_type: ModuleType,
    plugin: BuiltinPlugin<'_>,
)
    ensures
        esm_plugins(javascript_options, module_type).contains(plugin) <==> {
            &&& may_be_esm(module_type)
            &&& {
                ||| plugin is ESMTopLevelThisParserPlugin
                ||| plugin is ESMDetectionParserPlugin
                ||| plugin is ImportMetaContextDependencyParserPlugin
                ||| plugin is ESMImportDependencyParserPlugin
                ||| plugin is ESMExportDependencyParserPlugin
                ||| plugin == import_meta_plugin(javascript_options.import_meta)
            }
        },
{
    let group = esm_plugins(javascript_options, module_type);
    if group.len() > 0 {
        assert(group.contains(group[0]));
    }
    if group.len() > 1 {
        assert(group.contains(group[1]));
    }
    if group.len() > 2 {
        assert(group.contains(group[2]));
    }
    if group.len() > 3 {
        assert(group.contains(group[3]));
    }
    if group.len() > 4 {
        assert(group.contains(group[4]));
    }
    if group.len() > 5 {
        assert(group.contains(group[5]));
    }
}

proof fn amd_plugin_comes_iff(
    compiler_options: CompilerOptions,
    module_type: ModuleType,
    plugin: BuiltinPlugin<'_>,
)
    ensures
        amd_plugins(compiler_options, module_type).contains(plugin) <==> {
            &&& compiler_options.amd && may_be_cjs(module_type)
            &&& {
                ||| plugin is AMDRequireDependenciesBlockParserPlugin
                ||| plugin is AMDDefineDependencyParserPlugin
                ||| plugin is AMDParserPlugin
            }
        },
{
    let group = amd_plugins(compiler_options, module_type);
    if group.len() > 0 {
        assert(group.contains(group[0]));
    }
    if group.len() > 1 {
        assert(group.contains(group[1]));
    }
    if group.len() > 2 {
        assert(group.contains(group[2]));
    }
}

proof fn cjs_plugin_comes_iff(
    javascript_options: JavascriptParserOptions,
    module_type: ModuleType,
    plugin: BuiltinPlugin<'_>,
)
    ensures
        cjs_plugins(javascript_options, module_type).contains(plugin) <==> {
            &&& may_be_cjs(module_type)
            &&& {
                ||| plugin is CommonJsImportsParserPlugin
                ||| plugin is CommonJsPlugin
                ||| plugin == (BuiltinPlugin::CommonJsExportsParserPlugin { skip_in_esm: false })
                    && commonjs_exports(javascript_options) is Enable
                ||| plugin == (BuiltinPlugin::CommonJsExportsParserPlugin { skip_in_esm: true })
                    && commonjs_exports(javascript_options) is SkipInEsm
            }
        },
{
    let group = cjs_plugins(javascript_options, module_type);
    if group.len() > 0 {
        assert(group.contains(group[0]));
    }
    if group.len() > 1 {
        assert(group.contains(group[1]));
    }
    if group.len() > 2 {
        assert(group.contains(group[2]));
    }
}

proof fn node_plugin_comes_iff(
    compiler_options: CompilerOptions,
    module_type: ModuleType,
    plugin: BuiltinPlugin<'_>,
)
    ensures
        node_plugins(compiler_options, module_type).contains(plugin) <==> {
            &&& plugin matches BuiltinPlugin::NodeStuffPlugin { handle_cjs, handle_esm }
            &&& handle_cjs == (may_be_cjs(module_type) && compiler_options.node)
            &&& handle_esm == may_be_esm(module_type)
            &&& handle_cjs || handle_esm
        },
{
    let group = node_plugins(compiler_options, module_type);
    if group.len() > 0 {
        assert(group.contains(group[0]));
    }
}

proof fn js_plugin_comes_iff(
    compiler_options: CompilerOptions,
    javascript_options: JavascriptParserOptions,
    module_type: ModuleType,
    plugin: BuiltinPlugin<'_>,
)
    ensures
        js_plugins(compiler_options, javascript_options, module_type).contains(plugin) <==> {
            &&& is_js(module_type)
            &&& {
                ||| plugin is IsIncludedPlugin
                ||| plugin is ExportsInfoApiPlugin
                ||| plugin == (BuiltinPlugin::APIPlugin {
                    output_module: compiler_options.output.module,
                })
                ||| plugin is ImportParserPlugin
                ||| plugin == BuiltinPlugin::WorkerPlugin(&javascript_options.worker->0)
                ||| plugin is OverrideStrictPlugin
            }
        },
{
    let group = js_plugins(compiler_options, javascript_options, module_type);
    if group.len() > 0 {
        assert(group.contains(group[0]));
    }
    if group.len() > 1 {
        assert(group.contains(group[1]));
    }
    if group.len() > 2 {
        assert(group.contains(group[2]));
    }
    if group.len() > 3 {
        assert(group.contains(group[3]));
    }
    if group.len() > 4 {
        assert(group.contains(group[4]));
    }
    if group.len() > 5 {
        assert(group.contains(group[5]));
    }
}

proof fn optimization_plugin_comes_iff(
    compiler_options: CompilerOptions,
    plugin: BuiltinPlugin<'_>,
)
    ensures
        optimization_plugins(compiler_options).contains(plugin) <==> {
            ||| plugin is InlineConstPlugin && compiler_options.optimization.inline_exports
            ||| plugin is InnerGraphPlugin && compiler_options.optimization.inner_graph
            ||| plugin is SideEffectsParserPlugin
                && compiler_options.optimization.side_effects is True
        },
{
    let inline_const = plugin_if(
        compiler_options.optimization.inline_exports,
        BuiltinPlugin::InlineConstPlugin,
    );
    let inner_graph = plugin_if(
        compiler_options.optimization.inner_graph,
        BuiltinPlugin::InnerGraphPlugin,
    );
    let side_effects = plugin_if(
        compiler_options.optimization.side_effects is True,
        BuiltinPlugin::SideEffectsParserPlugin,
    );
    contains_join(inline_const, inner_graph, plugin);
    contains_join(inline_const + inner_graph, side_effects, plugin);
    if inline_const.len() > 0 {
        assert(inline_const.contains(inline_const[0]));
    }
    if inner_graph.len() > 0 {
        assert(inner_graph.contains(inner_graph[0]));
    }
    if side_effects.len() > 0 {
        assert(side_effects.contains(side_effects[0]));
    }
}

/// A plugin is never applied before one that has to come earlier, and never twice: in
/// what a module gets, the one in the front has the lower rank. The ranks follow one list
/// of all plugins.
pub proof fn plugins_follow_one_list(
    compiler_options: CompilerOptions,
    javascript_options: JavascriptParserOptions,
    module_type: ModuleType,
    i: int,
    j: int,
)
    requires
        0 <= i < j < plugins_of(compiler_options, javascript_options, module_type).len(),
    ensures
        ({
            let all = plugins_of(compiler_options, javascript_options, module_type);
            rank(all[i]) < rank(all[j])
        }),
        forall|plugin: BuiltinPlugin<'_>|
            {
                &&& plugin is InitializeEvaluating <==> #[trigger] rank(plugin) == 0
                &&& plugin is JavascriptMetaInfoPlugin <==> rank(plugin) == 1
                &&& plugin is CheckVarDeclaratorIdent <==> rank(plugin) == 2
                &&& plugin is ConstPlugin <==> rank(plugin) == 3
                &&& plugin is UseStrictPlugin <==> rank(plugin) == 4
                &&& plugin is RequireContextDependencyParserPlugin <==> rank(plugin) == 5
                &&& plugin is RequireEnsureDependenciesBlockParserPlugin <==> rank(plugin) == 6
                &&& plugin is CompatibilityPlugin <==> rank(plugin) == 7
                &&& plugin is ESMTopLevelThisParserPlugin <==> rank(plugin) == 8
                &&& plugin is ESMDetectionParserPlugin <==> rank(plugin) == 9
                &&& plugin is ImportMetaContextDependencyParserPlugin <==> rank(plugin) == 10
                &&& plugin is ImportMetaPlugin <==> rank(plugin) == 11
                &&& plugin is ImportMetaDisabledPlugin <==> rank(plugin) == 12
                &&& plugin is ESMImportDependencyParserPlugin <==> rank(plugin) == 13
                &&& plugin is ESMExportDependencyParserPlugin <==> rank(plugin) == 14
                &&& plugin is AMDRequireDependenciesBlockParserPlugin <==> rank(plugin) == 15
                &&& plugin is AMDDefineDependencyParserPlugin <==> rank(plugin) == 16
                &&& plugin is AMDParserPlugin <==> rank(plugin) == 17
                &&& plugin is CommonJsImportsParserPlugin <==> rank(plugin) == 18
                &&& plugin is CommonJsPlugin <==> rank(plugin) == 19
                &&& plugin is CommonJsExportsParserPlugin <==> rank(plugin) == 20
                &&& plugin is NodeStuffPlugin <==> rank(plugin) == 21
                &&& plugin is IsIncludedPlugin <==> rank(plugin) == 22
                &&& plugin is ExportsInfoApiPlugin <==> rank(plugin) == 23
                &&& plugin is APIPlugin <==> rank(plugin) == 24
                &&& plugin is ImportParserPlugin <==> rank(plugin) == 25
                &&& plugin is WorkerPlugin <==> rank(plugin) == 26
                &&& plugin is OverrideStrictPlugin <==> rank(plugin) == 27
                &&& plugin is InlineConstPlugin <==> rank(plugin) == 28
                &&& plugin is InnerGraphPlugin <==> rank(plugin) == 29
                &&& plugin is SideEffectsParserPlugin <==> rank(plugin) == 30
            },
{
    plugins_in_fixed_order(compiler_options, javascript_options, module_type);
}

} // verus!
