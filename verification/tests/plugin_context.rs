use std::collections::HashMap;

use rspack_plugin_javascript::module_type::ModuleType;
use rspack_plugin_javascript::options::{
    CompilerOptions, Optimization, OutputOptions, SideEffectOption,
};
use rspack_plugin_javascript::plugin_context::ApplyContext;

fn options() -> CompilerOptions {
    CompilerOptions {
        amd: false,
        node: false,
        output: OutputOptions { module: false },
        optimization: Optimization {
            inline_exports: false,
            inner_graph: false,
            side_effects: SideEffectOption::False,
        },
    }
}

#[test]
fn registering_replaces_the_builder_of_the_same_type() {
    let options = options();
    let mut parsers: HashMap<u64, &str> = HashMap::new();
    let mut generators: HashMap<u64, &str> = HashMap::new();
    let mut hooks = [1, 2, 3, 4, 5, 6];
    let [compiler, compilation, normal_factory, context_factory, normal, concatenated] =
        &mut hooks;
    let mut context = ApplyContext {
        registered_parser_builder: &mut parsers,
        registered_generator_builder: &mut generators,
        compiler_hooks: compiler,
        compilation_hooks: compilation,
        normal_module_factory_hooks: normal_factory,
        context_module_factory_hooks: context_factory,
        normal_module_hooks: normal,
        concatenated_module_hooks: concatenated,
        compiler_options: &options,
    };
    context.register_parser_builder(ModuleType::JsAuto, "first");
    context.register_parser_builder(ModuleType::JsEsm, "esm");
    context.register_parser_builder(ModuleType::JsAuto, "second");
    *context.normal_module_hooks += 10;
    assert_eq!(parsers.len(), 2);
    assert_eq!(parsers.get(&ModuleType::JsAuto.key()), Some(&"second"));
    assert_eq!(parsers.get(&ModuleType::JsEsm.key()), Some(&"esm"));
    assert!(generators.is_empty());
    assert_eq!(hooks, [1, 2, 3, 4, 15, 6]);
}

#[test]
fn generators_and_parsers_are_registered_apart() {
    let options = options();
    let mut parsers: HashMap<u64, u8> = HashMap::new();
    let mut generators: HashMap<u64, u8> = HashMap::new();
    let mut context = ApplyContext {
        registered_parser_builder: &mut parsers,
        registered_generator_builder: &mut generators,
        compiler_hooks: &mut (),
        compilation_hooks: &mut (),
        normal_module_factory_hooks: &mut (),
        context_module_factory_hooks: &mut (),
        normal_module_hooks: &mut (),
        concatenated_module_hooks: &mut (),
        compiler_options: &options,
    };
    context.register_generator_builder(ModuleType::Other(4), 40);
    context.register_parser_builder(ModuleType::Other(4), 41);
    assert_eq!(generators.get(&ModuleType::Other(4).key()), Some(&40));
    assert_eq!(parsers.get(&ModuleType::Other(4).key()), Some(&41));
    assert_eq!(generators.len(), 1);
}
