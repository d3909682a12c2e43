//! Module types, source types and how a module type steers the parser.

use vstd::prelude::*;

verus! {

/// The type of a module. The three JavaScript flavours have variants of their
/// own; every other type is known by the number it is registered under.
#[derive(Clone, Copy, Debug, PartialEq, Eq, Structural)]
pub enum ModuleType {
    JsAuto,
    JsDynamic,
    JsEsm,
    Other(u32),
}

/// The type of a source that a generator emits. Source types other than
/// JavaScript and asset are known by the number they are registered under.
#[derive(Clone, Copy, Debug, PartialEq, Eq, Structural)]
pub enum SourceType {
    JavaScript,
    Asset,
    Other(u32),
}

/// Whether a program is parsed as an ES module.
#[derive(Clone, Copy, Debug, PartialEq, Eq, Structural)]
pub enum IsModule {
    Bool(bool),
    Unknown,
}

/// The number that stands for a module type in a table's keys.
pub open spec fn module_type_key(module_type: ModuleType) -> u64 {
    match module_type {
        ModuleType::JsAuto => 0,
        ModuleType::JsDynamic => 1,
        ModuleType::JsEsm => 2,
        ModuleType::Other(n) => (n + 3) as u64,
    }
}

/// The number that stands for a source type in a set.
pub open spec fn source_type_key(source_type: SourceType) -> u64 {
    match source_type {
        SourceType::JavaScript => 0,
        SourceType::Asset => 1,
        SourceType::Other(n) => (n + 2) as u64,
    }
}

impl ModuleType {
    pub fn is_js_auto(&self) -> (r: bool)
        ensures
            r == (*self is JsAuto),
    {
        matches!(self, ModuleType::JsAuto)
    }

    pub fn is_js_dynamic(&self) -> (r: bool)
        ensures
            r == (*self is JsDynamic),
    {
        matches!(self, ModuleType::JsDynamic)
    }

    pub fn is_js_esm(&self) -> (r: bool)
        ensures
            r == (*self is JsEsm),
    {
        matches!(self, ModuleType::JsEsm)
    }

    /// The module type's number in a table's keys.
    pub fn key(&self) -> (r: u64)
        ensures
            r == module_type_key(*self),
    {
        match self {
            ModuleType::JsAuto => 0,
            ModuleType::JsDynamic => 1,
            ModuleType::JsEsm => 2,
            ModuleType::Other(n) => *n as u64 + 3,
        }
    }
}

impl SourceType {
    /// The source type's number in a set.
    pub fn key(&self) -> (r: u64)
        ensures
            r == source_type_key(*self),
    {
        match self {
            SourceType::JavaScript => 0,
            SourceType::Asset => 1,
            SourceType::Other(n) => *n as u64 + 2,
        }
    }
}

/// How a module of this type is parsed: an ES module for `JsEsm`, a script for
/// `JsDynamic`, and whatever its text turns out to be for every other type.
pub open spec fn is_module_of(module_type: ModuleType) -> IsModule {
    match module_type {
        ModuleType::JsEsm => IsModule::Bool(true),
        ModuleType::JsDynamic => IsModule::Bool(false),
        _ => IsModule::Unknown,
    }
}

/// Whether a module of this type may hold a `return` outside any function.
pub open spec fn allows_top_level_return(module_type: ModuleType) -> bool {
    module_type is JsDynamic || module_type is JsAuto
}

/// Parser options align with webpack.
pub fn module_type_to_is_module(value: &ModuleType) -> (r: IsModule)
    ensures
        r == is_module_of(*value),
        *value is JsEsm ==> r == IsModule::Bool(true),
        *value is JsDynamic ==> r == IsModule::Bool(false),
        *value is JsAuto || *value is Other ==> r == IsModule::Unknown,
{
    match value {
        ModuleType::JsEsm => IsModule::Bool(true),
        ModuleType::JsDynamic => IsModule::Bool(false),
        _ => IsModule::Unknown,
    }
}

/// Only the two certain kinds of JavaScript are parsed as what they are: it is known
/// beforehand that an ES module is one and that a script is none, and nothing is known of
/// any other module.
pub proof fn kind_is_known_of_esm_and_scripts_only(module_type: ModuleType)
    ensures
        is_module_of(module_type) == IsModule::Bool(true) <==> module_type == ModuleType::JsEsm,
        is_module_of(module_type) == IsModule::Bool(false) <==> module_type
            == ModuleType::JsDynamic,
        is_module_of(module_type) == IsModule::Unknown <==> module_type != ModuleType::JsEsm
            && module_type != ModuleType::JsDynamic,
{
}

/// A `return` outside any function is allowed where a module may be a script: not in an
/// ES module, and not in a module that is no JavaScript.
pub proof fn top_level_return_allowed_iff(module_type: ModuleType)
    ensures
        allows_top_level_return(module_type) <==> module_type == ModuleType::JsAuto || module_type
            == ModuleType::JsDynamic,
{
}

/// Different module types have different keys.
pub proof fn module_type_keys_distinct(a: ModuleType, b: ModuleType)
    ensures
        module_type_key(a) == module_type_key(b) <==> a == b,
{
}

/// Different source types have different keys.
pub proof fn source_type_keys_distinct(a: SourceType, b: SourceType)
    ensures
        source_type_key(a) == source_type_key(b) <==> a == b,
{
}

/// A module that is certainly an ES module never gets the permission to return
/// at its top level, and one that is certainly a script always does.
pub proof fn top_level_return_follows_is_module(module_type: ModuleType)
    ensures
        is_module_of(module_type) == IsModule::Bool(true) ==> !allows_top_level_return(module_type),
        is_module_of(module_type) == IsModule::Bool(false) ==> allows_top_level_return(module_type),
{
}

} // verus!
