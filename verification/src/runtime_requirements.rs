//! The names of the runtime's globals in the code of a module.

use regex::Regex;
use vstd::prelude::*;

verus! {

/// `regex::Regex`, a compiled regular expression.
#[verifier::external_type_specification]
#[verifier::external_body]
pub struct ExRegex(Regex);

/// `regex::Error`, why a regular expression was not compiled.
#[verifier::external_type_specification]
#[verifier::external_body]
pub struct ExRegexError(regex::Error);

/// What `regex::Regex::as_str` returns: the pattern that a regular expression was
/// compiled from.
pub uninterp spec fn regex_pattern(regex: Regex) -> Seq<char>;

/// The pattern is a name of at most a hundred letters, digits and underscores, and
/// behind it white space, if there is any, and a dot that an exclamation mark may
/// precede.
pub open spec fn is_member_pattern(pattern: Seq<char>) -> bool {
    exists|name: Seq<char>| #[trigger] is_short_name(name) && pattern == name + "\\s*(!?\\.)"@
}

/// At most a hundred letters, digits and underscores.
pub open spec fn is_short_name(name: Seq<char>) -> bool {
    &&& name.len() <= 100
    &&& forall|i: int|
        0 <= i < name.len() ==> 'a' <= #[trigger] name[i] <= 'z' || 'A' <= name[i] <= 'Z' || '0'
            <= name[i] <= '9' || name[i] == '_'
}

/// Calls `regex::Regex::new`. Trusted: a regular expression that comes back was
/// compiled from the pattern, and one comes back for the pattern of a member access.
/// Such a pattern is made of literals, a Perl class, repetitions, an escape and a group,
/// which the documented syntax has, and is far too short to reach the limit of ten
/// mebibytes on the compiled program. Which other patterns are compiled is left unsaid.
#[verifier::external_body]
fn compile_regex(pattern: &str) -> (r: Result<Regex, regex::Error>)
    ensures
        r matches Ok(regex) ==> regex_pattern(regex) == pattern@,
        is_member_pattern(pattern@) ==> r is Ok,
{
    Regex::new(pattern)
}

/// A regular expression could not be compiled.
#[derive(Clone, Copy, Debug, PartialEq, Eq, Structural)]
pub enum RegexError {
    NotCompiled,
}

/// What the outcome of compiling a regular expression means.
pub fn compiled_regex(outcome: Result<Regex, regex::Error>) -> (r: Result<Regex, RegexError>)
    ensures
        outcome matches Ok(regex) ==> r == Ok::<Regex, RegexError>(regex),
        outcome is Err ==> r == Err::<Regex, RegexError>(RegexError::NotCompiled),
{
    match outcome {
        Ok(regex) => Ok(regex),
        Err(_) => Err(RegexError::NotCompiled),
    }
}

/// The pattern of a member access on the legacy name of the runtime's `require`
/// function.
pub open spec fn legacy_require_pattern() -> Seq<char> {
    "__webpack_require__\\s*(!?\\.)"@
}

/// The regular expression that finds members of the legacy name of the runtime's
/// `require` function. It can always be compiled.
pub fn legacy_require_regex() -> (r: Result<Regex, RegexError>)
    ensures
        r matches Ok(regex) && regex_pattern(regex) == legacy_require_pattern(),
        regex_pattern(r->Ok_0) == "__webpack_require__\\s*(!?\\.)"@,
{
    proof {
        legacy_pattern_is_a_member_pattern();
    }
    compiled_regex(compile_regex("__webpack_require__\\s*(!?\\.)"))
}

/// The globals of the runtime whose names the parser asks for.
#[derive(Clone, Copy, Debug, PartialEq, Eq, Structural)]
pub enum RuntimeGlobals {
    Require,
    Module,
    Exports,
}

/// A template that knows what the runtime's globals are called in a module's code.
pub trait RuntimeTemplate {
    /// The name of a global. Asking for it does not add it to what the module requires.
    fn render_runtime_globals_without_adding(&self, global: RuntimeGlobals) -> String;
}

/// What the parser needs to know of the runtime.
#[derive(Debug)]
pub struct ParserRuntimeRequirementsData {
    pub module: String,
    pub exports: String,
    pub require: String,
    pub require_regex: Regex,
}

/// The data holds the names that a template gives, and the regular expression that
/// finds members of the legacy name.
pub open spec fn requirements_of<T: RuntimeTemplate>(
    runtime_template: T,
    require_regex: Regex,
    data: ParserRuntimeRequirementsData,
) -> bool {
    &&& call_ensures(
        T::render_runtime_globals_without_adding,
        (&runtime_template, RuntimeGlobals::Module),
        data.module,
    )
    &&& call_ensures(
        T::render_runtime_globals_without_adding,
        (&runtime_template, RuntimeGlobals::Exports),
        data.exports,
    )
    &&& call_ensures(
        T::render_runtime_globals_without_adding,
        (&runtime_template, RuntimeGlobals::Require),
        data.require,
    )
    &&& data.require_regex == require_regex
    &&& regex_pattern(data.require_regex) == legacy_require_pattern()
}

impl ParserRuntimeRequirementsData {
    /// Asks a template for the names. The regular expression, which is compiled once and
    /// shared, is that of [`legacy_require_regex`].
    pub fn new<T: RuntimeTemplate>(runtime_template: &T, require_regex: Regex) -> (r: Self)
        requires
            regex_pattern(require_regex) == legacy_require_pattern(),
        ensures
            requirements_of(*runtime_template, require_regex, r),
            regex_pattern(r.require_regex) == legacy_require_pattern(),
            r.require_regex == require_regex,
            call_ensures(
                T::render_runtime_globals_without_adding,
                (runtime_template, RuntimeGlobals::Require),
                r.require,
            ),
            call_ensures(
                T::render_runtime_globals_without_adding,
                (runtime_template, RuntimeGlobals::Module),
                r.module,
            ),
            call_ensures(
                T::render_runtime_globals_without_adding,
                (runtime_template, RuntimeGlobals::Exports),
                r.exports,
            ),
    {
        let require_name = runtime_template.render_runtime_globals_without_adding(
            RuntimeGlobals::Require,
        );
        let module_name = runtime_template.render_runtime_globals_without_adding(
            RuntimeGlobals::Module,
        );
        let exports_name = runtime_template.render_runtime_globals_without_adding(
            RuntimeGlobals::Exports,
        );
        ParserRuntimeRequirementsData {
            require_regex,
            module: module_name,
            exports: exports_name,
            require: require_name,
        }
    }
}

/// The pattern is the legacy name followed by what makes any name the pattern of a member
/// access, and a regular expression is compiled for it.
pub proof fn legacy_pattern_is_a_member_pattern()
    ensures
        legacy_require_pattern() == "__webpack_require__"@ + "\\s*(!?\\.)"@,
        is_member_pattern(legacy_require_pattern()),
{
    let name = "__webpack_require__"@;
    reveal_strlit("__webpack_require__");
    reveal_strlit("\\s*(!?\\.)");
    reveal_strlit("__webpack_require__\\s*(!?\\.)");
    assert(legacy_require_pattern() =~= name + "\\s*(!?\\.)"@);
    assert(is_short_name(name));
}

} // verus!
