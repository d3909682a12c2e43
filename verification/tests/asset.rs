use std::collections::HashMap;

use rspack_plugin_javascript::asset::{collect_issuer_keys, RslibAssetGenerator};
use rspack_plugin_javascript::generator::Generator;
use rspack_plugin_javascript::graph::{
    AssetParserData, BuildMetaExportsType, Module, ModuleGraph, ModuleGraphConnection,
    NormalModule, ParserData,
};
use rspack_plugin_javascript::module_type::SourceType;

/// An asset generator with answers that nothing else gives.
struct Inner;

impl Generator<()> for Inner {
    type ChunkGraph = u8;

    fn source_types(&self, _module: &Module<()>, _graph: &ModuleGraph<()>) -> Vec<SourceType> {
        vec![SourceType::Other(77)]
    }

    fn size(&self, _module: &Module<()>, source_type: Option<&SourceType>) -> usize {
        if source_type.is_some() {
            42
        } else {
            7
        }
    }

    fn get_concatenation_bailout_reason(
        &self,
        _module: &Module<()>,
        _mg: &ModuleGraph<()>,
        cg: &u8,
    ) -> Option<String> {
        Some(format!("chunk {}", cg))
    }
}

fn module(parser_data: Option<ParserData>, normal: bool) -> Module<()> {
    Module {
        identifier: 1,
        exports_type: BuildMetaExportsType::Default,
        source_size: None,
        dependencies: vec![],
        presentational_dependencies: None,
        blocks: vec![],
        module_concatenation_bailout: None,
        normal_module: if normal { Some(NormalModule { parser_data }) } else { None },
    }
}

fn asset(is_inline: bool, is_source: bool) -> Module<()> {
    module(Some(ParserData::Asset(AssetParserData { is_inline, is_source })), true)
}

fn graph(origins: Vec<Option<u64>>) -> ModuleGraph<()> {
    let mut modules = HashMap::new();
    modules.insert(1, SourceType::Asset);
    modules.insert(2, SourceType::JavaScript);
    modules.insert(3, SourceType::Other(5));
    let mut incoming_connections = HashMap::new();
    incoming_connections.insert(
        1,
        origins
            .into_iter()
            .map(|original_module_identifier| ModuleGraphConnection { original_module_identifier })
            .collect(),
    );
    ModuleGraph {
        modules,
        incoming_connections,
        dependencies: HashMap::new(),
        blocks: HashMap::new(),
    }
}

const BOTH: [SourceType; 2] = [SourceType::JavaScript, SourceType::Asset];
const INNER: [SourceType; 1] = [SourceType::Other(77)];

#[test]
fn an_asset_without_issuer_gets_a_javascript_module() {
    let generator = RslibAssetGenerator(Inner);
    assert_eq!(generator.source_types(&asset(false, false), &graph(vec![])), BOTH);
}

#[test]
fn entries_and_unknown_origins_are_no_issuers() {
    let generator = RslibAssetGenerator(Inner);
    let graph = graph(vec![None, Some(99)]);
    assert_eq!(generator.source_types(&asset(false, false), &graph), BOTH);
}

#[test]
fn a_module_without_connections_has_no_issuer() {
    let generator = RslibAssetGenerator(Inner);
    let mut lonely = asset(false, false);
    lonely.identifier = 1000;
    assert_eq!(generator.source_types(&lonely, &graph(vec![Some(2)])), BOTH);
}

#[test]
fn an_issued_asset_keeps_the_inner_source_types() {
    let generator = RslibAssetGenerator(Inner);
    let graph = graph(vec![None, Some(2)]);
    assert_eq!(generator.source_types(&asset(false, false), &graph), INNER);
}

#[test]
fn inlined_source_and_foreign_modules_keep_the_inner_source_types() {
    let generator = RslibAssetGenerator(Inner);
    let graph = graph(vec![]);
    assert_eq!(generator.source_types(&asset(true, false), &graph), INNER);
    assert_eq!(generator.source_types(&asset(false, true), &graph), INNER);
    assert_eq!(generator.source_types(&module(Some(ParserData::Other), true), &graph), INNER);
    assert_eq!(generator.source_types(&module(None, true), &graph), INNER);
    assert_eq!(generator.source_types(&module(None, false), &graph), INNER);
}

#[test]
fn issuer_keys_hold_each_source_type_once() {
    let keys = collect_issuer_keys(
        &graph(vec![Some(2), None, Some(3), Some(2), Some(98)]),
        &asset(false, false),
    );
    assert_eq!(keys.len(), 2);
    assert!(keys.contains(&SourceType::JavaScript.key()));
    assert!(keys.contains(&SourceType::Other(5).key()));
    assert!(!keys.contains(&SourceType::Asset.key()));
}

#[test]
fn size_and_bailout_come_from_the_inner_generator() {
    let generator = RslibAssetGenerator(Inner);
    let module = asset(false, false);
    assert_eq!(generator.size(&module, Some(&SourceType::Asset)), 42);
    assert_eq!(generator.size(&module, None), 7);
    assert_eq!(
        generator.get_concatenation_bailout_reason(&module, &graph(vec![]), &9),
        Some("chunk 9".to_string())
    );
}
