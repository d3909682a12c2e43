//! The module graph and the compilation, as far as code generation reads them.

use std::collections::HashMap;

use vstd::prelude::*;

use crate::module_type::SourceType;

verus! {

pub type ModuleIdentifier = u64;

pub type DependencyId = u64;

pub type AsyncDependenciesBlockIdentifier = u64;

pub type DependencyTemplateType = u64;

/// What the exports of a module look like to its importers.
#[derive(Clone, Copy, Debug, PartialEq, Eq, Structural)]
pub enum BuildMetaExportsType {
    Unset,
    Default,
    Namespace,
    Flagged,
    Dynamic,
}

/// What parsing an asset module found out about it.
#[derive(Clone, Copy, Debug, PartialEq, Eq, Structural)]
pub struct AssetParserData {
    pub is_inline: bool,
    pub is_source: bool,
}

/// What a parser left behind at a module.
#[derive(Clone, Copy, Debug, PartialEq, Eq, Structural)]
pub enum ParserData {
    Asset(AssetParserData),
    Other,
}

/// The part of a module that only a normal module has.
#[derive(Clone, Copy, Debug, PartialEq, Eq, Structural)]
pub struct NormalModule {
    pub parser_data: Option<ParserData>,
}

/// A dependency that takes part in code generation. A template, looked up by
/// `template_type`, renders it.
pub struct CodeGenerationDependency<D> {
    pub template_type: Option<DependencyTemplateType>,
    pub dependency: D,
}

/// A dependency that stands for no other module and is only rendered.
pub struct PresentationalDependency<D> {
    pub code_generation: CodeGenerationDependency<D>,
    /// Whether it is the dependency that marks an ES module.
    pub is_esm_compatibility: bool,
}

/// A dependency of the graph. Only one with a `code_generation` part is rendered.
pub struct Dependency<D> {
    pub code_generation: Option<CodeGenerationDependency<D>>,
}

/// A block of dependencies that is loaded asynchronously.
pub struct AsyncDependenciesBlock {
    pub dependencies: Vec<DependencyId>,
    pub blocks: Vec<AsyncDependenciesBlockIdentifier>,
}

/// An edge of the graph, seen from the module that it leads to.
#[derive(Clone, Copy, Debug, PartialEq, Eq, Structural)]
pub struct ModuleGraphConnection {
    pub original_module_identifier: Option<ModuleIdentifier>,
}

/// A module, as far as the generators read it.
pub struct Module<D> {
    pub identifier: ModuleIdentifier,
    pub exports_type: BuildMetaExportsType,
    /// The size of the module's source in bytes, if it has a source.
    pub source_size: Option<usize>,
    pub dependencies: Vec<DependencyId>,
    pub presentational_dependencies: Option<Vec<PresentationalDependency<D>>>,
    pub blocks: Vec<AsyncDependenciesBlockIdentifier>,
    /// The feature that keeps the module out of concatenation, if one was found.
    pub module_concatenation_bailout: Option<String>,
    pub normal_module: Option<NormalModule>,
}

/// The module graph. Of a module it keeps the source type that the module's type
/// stands for.
pub struct ModuleGraph<D> {
    pub modules: HashMap<ModuleIdentifier, SourceType>,
    pub incoming_connections: HashMap<ModuleIdentifier, Vec<ModuleGraphConnection>>,
    pub dependencies: HashMap<DependencyId, Dependency<D>>,
    pub blocks: HashMap<AsyncDependenciesBlockIdentifier, AsyncDependenciesBlock>,
}

/// A compilation: the module graph and the dependency templates.
pub struct Compilation<T, D> {
    pub module_graph: ModuleGraph<D>,
    pub dependency_templates: HashMap<DependencyTemplateType, T>,
}

impl<D> ModuleGraph<D> {
    /// The connections that lead to a module: none for one that the graph has no
    /// entry for.
    pub open spec fn connections_to(self, module: ModuleIdentifier) -> Seq<ModuleGraphConnection> {
        if self.incoming_connections@.contains_key(module) {
            self.incoming_connections@[module]@
        } else {
            Seq::empty()
        }
    }

    /// The dependency that an identifier stands for.
    pub fn dependency_by_id(&self, dependency_id: DependencyId) -> (r: &Dependency<D>)
        requires
            self.dependencies@.contains_key(dependency_id),
        ensures
            *r == self.dependencies@[dependency_id],
    {
        broadcast use vstd::std_specs::hash::group_hash_axioms;

        self.dependencies.get(&dependency_id).unwrap()
    }

    /// The block that an identifier stands for, if the graph has it.
    pub fn block_by_id(&self, block_id: AsyncDependenciesBlockIdentifier) -> (r: Option<
        &AsyncDependenciesBlock,
    >)
        ensures
            r is Some <==> self.blocks@.contains_key(block_id),
            r matches Some(block) ==> *block == self.blocks@[block_id],
    {
        broadcast use vstd::std_specs::hash::group_hash_axioms;

        self.blocks.get(&block_id)
    }

    /// The source type of the module that an identifier stands for, if the graph
    /// has the module.
    pub fn source_type_by_identifier(&self, module: ModuleIdentifier) -> (r: Option<SourceType>)
        ensures
            r is Some <==> self.modules@.contains_key(module),
            r matches Some(source_type) ==> source_type == self.modules@[module],
    {
        broadcast use vstd::std_specs::hash::group_hash_axioms;

        match self.modules.get(&module) {
            Some(source_type) => Some(*source_type),
            None => None,
        }
    }

    /// The connections that lead to a module.
    pub fn get_incoming_connections(&self, module: ModuleIdentifier) -> (r: &[ModuleGraphConnection])
        ensures
            r@ == self.connections_to(module),
            self.incoming_connections@.contains_key(module) ==> r@
                == self.incoming_connections@[module]@,
            !self.incoming_connections@.contains_key(module) ==> r@.len() == 0,
    {
        broadcast use vstd::std_specs::hash::group_hash_axioms;

        match self.incoming_connections.get(&module) {
            Some(connections) => connections.as_slice(),
            None => &[],
        }
    }
}

impl<T, D> Compilation<T, D> {
    /// The template of a type, if one is registered.
    pub fn get_dependency_template(&self, template_type: DependencyTemplateType) -> (r: Option<&T>)
        ensures
            r is Some <==> self.dependency_templates@.contains_key(template_type),
            r matches Some(template) ==> *template == self.dependency_templates@[template_type],
    {
        broadcast use vstd::std_specs::hash::group_hash_axioms;

        self.dependency_templates.get(&template_type)
    }
}

} // verus!
