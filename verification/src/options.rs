//! The options that the parser reads.

use vstd::prelude::*;

verus! {

/// How `import.meta` is treated.
#[derive(Clone, Copy, Debug, PartialEq, Eq, Structural)]
pub enum ImportMeta {
    Enabled,
    Disabled,
    PreserveUnknown,
}

/// Whether CommonJS exports are looked for.
#[derive(Clone, Copy, Debug, PartialEq, Eq, Structural)]
pub enum JavascriptParserCommonjsExportsOption {
    Enable,
    Disable,
    SkipInEsm,
}

#[derive(Clone, Copy, Debug, PartialEq, Eq, Structural)]
pub struct JavascriptParserCommonjsOptions {
    pub exports: JavascriptParserCommonjsExportsOption,
}

/// The options of the JavaScript parser.
#[derive(Debug)]
pub struct JavascriptParserOptions {
    pub import_meta: Option<ImportMeta>,
    pub commonjs: Option<JavascriptParserCommonjsOptions>,
    /// The calls that are taken for the creation of a worker.
    pub worker: Option<Vec<String>>,
    pub jsx: Option<bool>,
}

/// The parser options of a module; `javascript` is set if they are, or fall back on,
/// options of the JavaScript parser.
#[derive(Debug)]
pub struct ParserOptions {
    pub javascript: Option<JavascriptParserOptions>,
}

impl ParserOptions {
    pub fn get_javascript(&self) -> (r: Option<&JavascriptParserOptions>)
        ensures
            r is Some <==> self.javascript is Some,
            r matches Some(options) ==> *options == self.javascript->0,
    {
        match &self.javascript {
            Some(options) => Some(options),
            None => None,
        }
    }
}

/// Whether modules are examined for side effects.
#[derive(Clone, Copy, Debug, PartialEq, Eq, Structural)]
pub enum SideEffectOption {
    False,
    True,
    Flag,
}

impl SideEffectOption {
    pub fn is_true(&self) -> (r: bool)
        ensures
            r == (*self is True),
    {
        matches!(self, SideEffectOption::True)
    }
}

#[derive(Clone, Copy, Debug, PartialEq, Eq, Structural)]
pub struct Optimization {
    pub inline_exports: bool,
    pub inner_graph: bool,
    pub side_effects: SideEffectOption,
}

#[derive(Clone, Copy, Debug, PartialEq, Eq, Structural)]
pub struct OutputOptions {
    /// Whether the output is an ES module.
    pub module: bool,
}

/// The compiler options that the parser reads.
#[derive(Clone, Copy, Debug, PartialEq, Eq, Structural)]
pub struct CompilerOptions {
    /// Whether AMD is configured.
    pub amd: bool,
    /// Whether the Node.js stand-ins are configured.
    pub node: bool,
    pub output: OutputOptions,
    pub optimization: Optimization,
}

} // verus!
