use std::collections::HashMap;

use rspack_plugin_javascript::generator::{
    GenerateContext, Generator, JavaScriptGenerator, TemplateContext,
};
use rspack_plugin_javascript::graph::{
    AsyncDependenciesBlock, BuildMetaExportsType, CodeGenerationDependency, Compilation,
    Dependency, Module, ModuleGraph, PresentationalDependency,
};
use rspack_plugin_javascript::module_type::SourceType;
use rspack_plugin_javascript::render::DependencyTemplate;

type Context = TemplateContext<String, u32, String, u32>;

/// Appends its own letter and the dependency's number.
struct Template(char);

impl DependencyTemplate<u32, Context> for Template {
    fn render(&self, dependency: &u32, mut state: Context) -> Context {
        state.source.push(self.0);
        state.source.push_str(&dependency.to_string());
        state.init_fragments.push(*dependency);
        state.data += 1;
        if let Some(scope) = state.concatenation_scope.as_mut() {
            scope.push('+');
        }
        state
    }
}

impl DependencyTemplate<u32, String> for Template {
    fn render(&self, dependency: &u32, mut state: String) -> String {
        state.push(self.0);
        state.push_str(&dependency.to_string());
        state
    }
}

fn code_generation(template_type: Option<u64>, dependency: u32) -> CodeGenerationDependency<u32> {
    CodeGenerationDependency { template_type, dependency }
}

fn rendered(template_type: u64, dependency: u32) -> Dependency<u32> {
    Dependency { code_generation: Some(code_generation(Some(template_type), dependency)) }
}

fn presentational(template_type: u64, dependency: u32, esm: bool) -> PresentationalDependency<u32> {
    PresentationalDependency {
        code_generation: code_generation(Some(template_type), dependency),
        is_esm_compatibility: esm,
    }
}

fn block(dependencies: Vec<u64>, blocks: Vec<u64>) -> AsyncDependenciesBlock {
    AsyncDependenciesBlock { dependencies, blocks }
}

/// Dependencies 1 to 6, of which 3 is not rendered; block 10 holds 2, 3, 4 and the
/// blocks 11 and 12; block 11 holds 5 and block 13; 12 holds 6; 13 holds 1.
fn compilation() -> Compilation<Template, u32> {
    let mut dependencies = HashMap::new();
    dependencies.insert(1, rendered(0, 1));
    dependencies.insert(2, rendered(1, 2));
    dependencies.insert(3, Dependency { code_generation: None });
    dependencies.insert(4, rendered(0, 4));
    dependencies.insert(5, rendered(1, 5));
    dependencies.insert(6, rendered(0, 6));
    dependencies.insert(7, Dependency { code_generation: Some(code_generation(None, 7)) });
    dependencies.insert(8, rendered(9, 8));
    let mut blocks = HashMap::new();
    blocks.insert(10, block(vec![2, 3, 4], vec![11, 12]));
    blocks.insert(11, block(vec![5], vec![13]));
    blocks.insert(12, block(vec![6], vec![]));
    blocks.insert(13, block(vec![1], vec![]));
    blocks.insert(20, block(vec![], vec![21]));
    blocks.insert(21, block(vec![], vec![20]));
    blocks.insert(22, block(vec![], vec![23]));
    let mut dependency_templates = HashMap::new();
    dependency_templates.insert(0, Template('a'));
    dependency_templates.insert(1, Template('b'));
    Compilation {
        module_graph: ModuleGraph {
            modules: HashMap::new(),
            incoming_connections: HashMap::new(),
            dependencies,
            blocks,
        },
        dependency_templates,
    }
}

fn module(
    dependencies: Vec<u64>,
    presentational_dependencies: Option<Vec<PresentationalDependency<u32>>>,
    blocks: Vec<u64>,
) -> Module<u32> {
    Module {
        identifier: 1,
        exports_type: BuildMetaExportsType::Namespace,
        source_size: Some(12),
        dependencies,
        presentational_dependencies,
        blocks,
        module_concatenation_bailout: None,
        normal_module: None,
    }
}

fn context() -> GenerateContext<String, u32> {
    GenerateContext {
        requested_source_type: SourceType::JavaScript,
        concatenation_scope: Some("scope".to_string()),
        data: 100,
    }
}

#[test]
fn a_dependency_is_rendered_with_its_template() {
    let compilation = compilation();
    let generator = JavaScriptGenerator::default();
    assert_eq!(generator.source_dependency(&compilation, 2, ":".to_string()), ":b2");
    assert_eq!(generator.source_dependency(&compilation, 3, ":".to_string()), ":");
}

#[test]
fn a_block_renders_its_dependencies_before_its_blocks() {
    let compilation = compilation();
    let out = JavaScriptGenerator.source_block(&compilation, 10, String::new());
    assert_eq!(out, "b2a4b5a1a6");
}

#[test]
fn a_module_renders_dependencies_presentational_dependencies_and_blocks() {
    let compilation = compilation();
    let module = module(
        vec![6, 3, 1],
        Some(vec![presentational(1, 50, true), presentational(0, 51, false)]),
        vec![12, 11],
    );
    assert!(compilation.can_render_module(&module));
    let (source, fragments, context) =
        JavaScriptGenerator.generate("|".to_string(), &module, &compilation, context());
    assert_eq!(source, "|a6a1b50a51a6b5a1");
    assert_eq!(fragments, vec![6, 1, 50, 51, 6, 5, 1]);
    assert_eq!(context.concatenation_scope, Some("scope+++++++".to_string()));
    assert_eq!(context.data, 107);
    assert_eq!(context.requested_source_type, SourceType::JavaScript);
}

#[test]
fn a_module_with_nothing_to_render_stays_as_it_is() {
    let compilation = compilation();
    let (source, fragments, context) = JavaScriptGenerator.generate(
        "source".to_string(),
        &module(vec![], None, vec![]),
        &compilation,
        context(),
    );
    assert_eq!(source, "source");
    assert!(fragments.is_empty());
    assert_eq!(context.concatenation_scope, Some("scope".to_string()));
    assert_eq!(context.data, 100);
}

#[test]
fn what_cannot_be_rendered_is_found_out() {
    let compilation = compilation();
    assert!(compilation.can_render_module(&module(vec![1, 2, 3], None, vec![10, 13])));
    // A dependency that the graph does not have, one without and one with an unknown
    // template.
    assert!(!compilation.can_render_module(&module(vec![1, 99], None, vec![])));
    assert!(!compilation.can_render_module(&module(vec![7], None, vec![])));
    assert!(!compilation.can_render_module(&module(vec![8], None, vec![])));
    assert!(!compilation
        .can_render_module(&module(vec![], Some(vec![presentational(9, 1, true)]), vec![])));
    // A block that the graph does not have, one that holds such a block, and one that is
    // nested in itself.
    assert!(!compilation.can_render_module(&module(vec![], None, vec![99])));
    assert!(!compilation.can_render_module(&module(vec![], None, vec![22])));
    assert!(!compilation.can_render_module(&module(vec![], None, vec![20])));
}

#[test]
fn javascript_modules_are_rendered_to_javascript() {
    let compilation = compilation();
    let module = module(vec![], None, vec![]);
    assert_eq!(
        JavaScriptGenerator.source_types(&module, &compilation.module_graph),
        vec![SourceType::JavaScript]
    );
}

#[test]
fn the_size_is_that_of_the_source() {
    let mut module = module(vec![], None, vec![]);
    assert_eq!(JavaScriptGenerator.size(&module, None), 12);
    module.source_size = None;
    assert_eq!(JavaScriptGenerator.size(&module, Some(&SourceType::JavaScript)), 0);
}

fn reason(module: &Module<u32>) -> Option<String> {
    JavaScriptGenerator.get_concatenation_bailout_reason(
        module,
        &compilation().module_graph,
        &(),
    )
}

#[test]
fn only_marked_es_modules_are_concatenated() {
    let not_esm = Some("Module is not an ECMAScript module".to_string());
    let mut module = module(
        vec![],
        Some(vec![presentational(0, 1, false), presentational(0, 2, true)]),
        vec![],
    );
    assert_eq!(reason(&module), None);
    module.exports_type = BuildMetaExportsType::Dynamic;
    assert_eq!(reason(&module), not_esm);
    module.exports_type = BuildMetaExportsType::Namespace;
    module.presentational_dependencies = Some(vec![presentational(0, 1, false)]);
    assert_eq!(reason(&module), not_esm);
    module.presentational_dependencies = None;
    assert_eq!(reason(&module), not_esm);
}

#[test]
fn a_bailout_names_the_feature() {
    let mut module = module(vec![], Some(vec![presentational(0, 2, true)]), vec![]);
    module.module_concatenation_bailout = Some("eval()".to_string());
    assert_eq!(reason(&module), Some("Module uses eval()".to_string()));
    module.exports_type = BuildMetaExportsType::Unset;
    assert_eq!(reason(&module), Some("Module is not an ECMAScript module".to_string()));
}
