//! The asset generator of a library build.

use rustc_hash::{FxBuildHasher, FxHashSet};
use vstd::prelude::*;

use crate::generator::Generator;
use crate::graph::{AssetParserData, Module, ModuleGraph, ModuleGraphConnection, ParserData};
use crate::module_type::{source_type_key, source_type_keys_distinct, SourceType};

verus! {

/// `rustc_hash::FxBuildHasher`, the hasher factory of the Fx collections.
#[verifier::external_type_specification]
#[verifier::external_body]
pub struct ExFxBuildHasher(FxBuildHasher);

/// Calls `insert` of `rustc_hash::FxHashSet`, the standard hash set with the Fx
/// hasher. Trusted: the set afterwards holds what it held before and the key, and
/// the result says whether the key is new. The Fx hasher starts from the same state
/// for every key and folds only what is written into it, so equal keys have equal
/// hashes.
#[verifier::external_body]
fn fx_insert(set: &mut FxHashSet<u64>, key: u64) -> (is_new: bool)
    ensures
        final(set)@ == old(set)@.insert(key),
        is_new == !old(set)@.contains(key),
{
    set.insert(key)
}

/// Wraps an asset generator: an asset that no module of the graph issues is emitted
/// together with a JavaScript module for it.
#[derive(Clone, Debug)]
pub struct RslibAssetGenerator<G>(pub G);

/// A connection comes from a module that the graph has.
pub open spec fn comes_from_module<D>(
    module_graph: ModuleGraph<D>,
    connection: ModuleGraphConnection,
) -> bool {
    connection.original_module_identifier matches Some(issuer)
        && module_graph.modules@.contains_key(issuer)
}

/// Some module of the graph issues the module: a connection to it comes from there.
pub open spec fn has_issuer<D>(module_graph: ModuleGraph<D>, module: Module<D>) -> bool {
    exists|i: int|
        0 <= i < module_graph.connections_to(module.identifier).len() && #[trigger]
            comes_from_module(module_graph, module_graph.connections_to(module.identifier)[i])
}

/// The connection at `i` comes from a module whose source type has this key.
pub open spec fn issued_through<D>(
    module_graph: ModuleGraph<D>,
    module: Module<D>,
    i: int,
    key: u64,
) -> bool {
    let connections = module_graph.connections_to(module.identifier);
    &&& 0 <= i < connections.len()
    &&& comes_from_module(module_graph, connections[i])
    &&& source_type_key(module_graph.modules@[connections[i].original_module_identifier->0]) == key
}

/// The keys of the source types of the modules that issue a module.
pub open spec fn issuer_keys<D>(module_graph: ModuleGraph<D>, module: Module<D>) -> Set<u64> {
    Set::new(|key: u64| exists|i: int| issued_through(module_graph, module, i, key))
}

/// The module is an asset of its own: a normal module whose parser found an asset
/// that is neither inlined nor used as source text.
pub open spec fn is_separate_asset<D>(module: Module<D>) -> bool {
    &&& module.normal_module matches Some(normal) && normal.parser_data matches Some(
        ParserData::Asset(data),
    ) && !data.is_inline && !data.is_source
}

/// What an asset parser left at a module, if it is a normal module that one parsed.
fn asset_parser_data<D>(module: &Module<D>) -> (r: Option<AssetParserData>)
    ensures
        r == (match module.normal_module {
            Some(normal) => match normal.parser_data {
                Some(ParserData::Asset(data)) => Some(data),
                _ => None,
            },
            None => None,
        }),
{
    match module.normal_module {
        Some(normal) => match normal.parser_data {
            Some(ParserData::Asset(data)) => Some(data),
            _ => None,
        },
        None => None,
    }
}

/// The keys of the source types of the modules that issue a module.
pub fn collect_issuer_keys<D>(module_graph: &ModuleGraph<D>, module: &Module<D>) -> (r: FxHashSet<
    u64,
>)
    ensures
        r@ == issuer_keys(*module_graph, *module),
{
    let mut source_types: FxHashSet<u64> = FxHashSet::default();
    let connections = module_graph.get_incoming_connections(module.identifier);
    let n: usize = connections.len();
    for i in 0..n
        invariant
            n == connections@.len(),
            connections@ == module_graph.connections_to(module.identifier),
            forall|key: u64| #[trigger]
                source_types@.contains(key) <==> exists|j: int|
                    j < i && issued_through(*module_graph, *module, j, key),
    {
        let ghost before = source_types@;
        if let Some(issuer) = connections[i].original_module_identifier {
            if let Some(source_type) = module_graph.source_type_by_identifier(issuer) {
                let key: u64 = source_type.key();
                fx_insert(&mut source_types, key);
                assert(issued_through(*module_graph, *module, i as int, key));
            }
        }
        assert forall|key: u64| #[trigger] source_types@.contains(key) <==> exists|j: int|
            j < i + 1 && issued_through(*module_graph, *module, j, key) by {
            if before.contains(key) {
                let j = choose|j: int| j < i && issued_through(*module_graph, *module, j, key);
                assert(j < i + 1 && issued_through(*module_graph, *module, j, key));
            }
            if exists|j: int| j < i + 1 && issued_through(*module_graph, *module, j, key) {
                let j = choose|j: int| j < i + 1 && issued_through(*module_graph, *module, j, key);
                if j < i {
                    assert(before.contains(key));
                }
            }
        }
    }
    assert(source_types@ =~= issuer_keys(*module_graph, *module)) by {
        assert forall|key: u64|
            source_types@.contains(key) == issuer_keys(*module_graph, *module).contains(key) by {
            if exists|i: int| issued_through(*module_graph, *module, i, key) {
                let i = choose|i: int| issued_through(*module_graph, *module, i, key);
                assert(i < n && issued_through(*module_graph, *module, i, key));
            }
        }
    }
    source_types
}

/// A module has an issuer exactly if some source type was collected.
proof fn issuer_keys_empty_iff<D>(module_graph: ModuleGraph<D>, module: Module<D>)
    ensures
        issuer_keys(module_graph, module).is_empty() <==> !has_issuer(module_graph, module),
{
    let keys = issuer_keys(module_graph, module);
    let connections = module_graph.connections_to(module.identifier);
    if has_issuer(module_graph, module) {
        let i = choose|i: int|
            0 <= i < connections.len() && #[trigger] comes_from_module(
                module_graph,
                connections[i],
            );
        let key = source_type_key(
            module_graph.modules@[connections[i].original_module_identifier->0],
        );
        assert(issued_through(module_graph, module, i, key));
        assert(keys.contains(key));
    } else {
        assert forall|key: u64| !keys.contains(key) by {
            if keys.contains(key) {
                let i = choose|i: int| issued_through(module_graph, module, i, key);
                assert(comes_from_module(module_graph, connections[i]));
            }
        }
        assert(keys =~= Set::empty());
    }
}

impl<D, G: Generator<D>> Generator<D> for RslibAssetGenerator<G> {
    type ChunkGraph = G::ChunkGraph;

    /// JavaScript and asset for a separate asset without an issuer; what the wrapped
    /// generator says for every other module.
    fn source_types(&self, module: &Module<D>, module_graph: &ModuleGraph<D>) -> (r: Vec<
        SourceType,
    >)
        ensures
            !has_issuer(*module_graph, *module) && is_separate_asset(*module) ==> r@ == seq![
                SourceType::JavaScript,
                SourceType::Asset,
            ],
            has_issuer(*module_graph, *module) || !is_separate_asset(*module) ==> call_ensures(
                G::source_types,
                (&self.0, module, module_graph),
                r,
            ),
    {
        let source_types = collect_issuer_keys(module_graph, module);
        proof {
            issuer_keys_empty_iff(*module_graph, *module);
        }
        if source_types.is_empty() {
            if let Some(data) = asset_parser_data(module) {
                if !data.is_inline && !data.is_source {
                    return vec![SourceType::JavaScript, SourceType::Asset];
                }
            }
        }
        self.0.source_types(module, module_graph)
    }

    /// What the wrapped generator says.
    fn size(&self, module: &Module<D>, source_type: Option<&SourceType>) -> (r: usize)
        ensures
            call_ensures(G::size, (&self.0, module, source_type), r),
    {
        self.0.size(module, source_type)
    }

    /// What the wrapped generator says.
    fn get_concatenation_bailout_reason(
        &self,
        module: &Module<D>,
        mg: &ModuleGraph<D>,
        cg: &G::ChunkGraph,
    ) -> (r: Option<String>)
        ensures
            call_ensures(
                G::get_concatenation_bailout_reason,
                (&self.0, module, mg, cg),
                r,
            ),
    {
        self.0.get_concatenation_bailout_reason(module, mg, cg)
    }
}

/// An inlined asset, and one used as source text, are never emitted on their own.
pub proof fn inlined_asset_is_not_separate<D>(module: Module<D>, data: AssetParserData)
    requires
        module.normal_module matches Some(n) && n.parser_data == Some(ParserData::Asset(data)),
    ensures
        data.is_inline || data.is_source ==> !is_separate_asset(module),
{
}

/// A module has an issuer if and only if some connection that leads to it starts at a
/// module that the graph has. Connections to other modules, and those that start nowhere
/// or at a module that is gone, do not count.
pub proof fn issuer_is_a_known_module<D>(module_graph: ModuleGraph<D>, module: Module<D>)
    ensures
        has_issuer(module_graph, module) <==> {
            &&& module_graph.incoming_connections@.contains_key(module.identifier)
            &&& exists|i: int|
                #![trigger module_graph.incoming_connections@[module.identifier]@[i]]
                {
                    let connections = module_graph.incoming_connections@[module.identifier]@;
                    &&& 0 <= i < connections.len()
                    &&& connections[i].original_module_identifier is Some
                    &&& module_graph.modules@.contains_key(
                        connections[i].original_module_identifier->0,
                    )
                }
        },
{
    let connections = module_graph.connections_to(module.identifier);
    if has_issuer(module_graph, module) {
        let i = choose|i: int|
            0 <= i < connections.len() && #[trigger] comes_from_module(
                module_graph,
                connections[i],
            );
        assert(module_graph.incoming_connections@[module.identifier]@[i] == connections[i]);
    }
    assert forall|i: int|
        module_graph.incoming_connections@.contains_key(module.identifier) && 0 <= i
            < connections.len() && connections[i].original_module_identifier is Some
            && module_graph.modules@.contains_key(
            (#[trigger] connections[i]).original_module_identifier->0,
        ) implies has_issuer(module_graph, module) by {
        assert(comes_from_module(module_graph, connections[i]));
    }
}

/// A module is a separate asset if and only if it is a normal module that an asset parser
/// left its data at, and the data says neither inline nor source.
pub proof fn separate_asset_iff<D>(module: Module<D>)
    ensures
        module.normal_module is None ==> !is_separate_asset(module),
        module.normal_module matches Some(normal) ==> is_separate_asset(module) == (
        normal.parser_data == Some(
            ParserData::Asset(AssetParserData { is_inline: false, is_source: false }),
        )),
{
}

/// The source type of a module is collected if and only if that module issues the asset.
pub proof fn issuer_types_collected<D>(
    module_graph: ModuleGraph<D>,
    module: Module<D>,
    source_type: SourceType,
)
    ensures
        issuer_keys(module_graph, module).contains(source_type_key(source_type)) <==> {
            &&& module_graph.incoming_connections@.contains_key(module.identifier)
            &&& exists|i: int|
                #![trigger module_graph.incoming_connections@[module.identifier]@[i]]
                {
                    let connections = module_graph.incoming_connections@[module.identifier]@;
                    let issuer = connections[i].original_module_identifier;
                    &&& 0 <= i < connections.len()
                    &&& issuer is Some
                    &&& module_graph.modules@.contains_key(issuer->0)
                    &&& module_graph.modules@[issuer->0] == source_type
                }
        },
{
    let key = source_type_key(source_type);
    let connections = module_graph.connections_to(module.identifier);
    if exists|i: int| issued_through(module_graph, module, i, key) {
        let i = choose|i: int| issued_through(module_graph, module, i, key);
        let issuer = connections[i].original_module_identifier;
        source_type_keys_distinct(module_graph.modules@[issuer->0], source_type);
        assert(module_graph.incoming_connections@[module.identifier]@[i] == connections[i]);
    }
    assert forall|i: int|
        module_graph.incoming_connections@.contains_key(module.identifier) && 0 <= i
            < connections.len() && connections[i].original_module_identifier is Some
            && module_graph.modules@.contains_key(
            (#[trigger] connections[i]).original_module_identifier->0,
        ) && module_graph.modules@[connections[i].original_module_identifier->0]
            == source_type implies issued_through(module_graph, module, i, key) by {
        assert(comes_from_module(module_graph, connections[i]));
    }
}

} // verus!
