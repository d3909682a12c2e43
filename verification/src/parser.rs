//! The JavaScript parser's plugins and hooks.

use std::sync::Arc;

use vstd::prelude::*;

use crate::builtin_plugins::{builtin_plugins, plugins_of, worker_known, BuiltinPlugin};
use crate::module_type::ModuleType;
use crate::options::{CompilerOptions, JavascriptParserOptions};
use crate::runtime_requirements::ParserRuntimeRequirementsData;

verus! {

/// A parser plugin that is added from outside. `H` is the type of the hooks.
pub trait JavascriptParserPlugin<H> {
    /// Taps hooks: takes the hooks before and gives the hooks after.
    fn apply(&self, hooks: H, parser_runtime_requirements: &ParserRuntimeRequirementsData) -> H;
}

/// The hooks of the parser. The default hooks are untapped.
pub trait JavascriptParserHooks: Default {
    /// Applies a plugin that comes with the bundler.
    fn apply_builtin(
        self,
        plugin: BuiltinPlugin<'_>,
        parser_runtime_requirements: &ParserRuntimeRequirementsData,
    ) -> Self;
}

/// Plugins, applied from first to last, can take the hooks `from` to the hooks `to`.
pub open spec fn plugin_chain<P: JavascriptParserPlugin<H>, H>(
    plugins: Seq<P>,
    requirements: ParserRuntimeRequirementsData,
    from: H,
    to: H,
) -> bool
    decreases plugins.len(),
{
    if plugins.len() == 0 {
        from == to
    } else {
        exists|mid: H|
            {
                &&& plugin_chain(plugins.drop_last(), requirements, from, mid)
                &&& #[trigger] plugin_step(plugins.last(), requirements, mid, to)
            }
    }
}

/// A plugin can take the hooks `from` to the hooks `to`.
pub open spec fn plugin_step<P: JavascriptParserPlugin<H>, H>(
    plugin: P,
    requirements: ParserRuntimeRequirementsData,
    from: H,
    to: H,
) -> bool {
    call_ensures(P::apply, (&plugin, from, &requirements), to)
}

/// Plugins that come with the bundler, applied from first to last, can take the hooks
/// `from` to the hooks `to`.
pub open spec fn builtin_chain<H: JavascriptParserHooks>(
    plugins: Seq<BuiltinPlugin<'_>>,
    requirements: ParserRuntimeRequirementsData,
    from: H,
    to: H,
) -> bool
    decreases plugins.len(),
{
    if plugins.len() == 0 {
        from == to
    } else {
        exists|mid: H|
            {
                &&& builtin_chain(plugins.drop_last(), requirements, from, mid)
                &&& #[trigger] builtin_step(plugins.last(), requirements, mid, to)
            }
    }
}

/// A plugin that comes with the bundler can take the hooks `from` to the hooks `to`.
pub open spec fn builtin_step<H: JavascriptParserHooks>(
    plugin: BuiltinPlugin<'_>,
    requirements: ParserRuntimeRequirementsData,
    from: H,
    to: H,
) -> bool {
    call_ensures(H::apply_builtin, (from, plugin, &requirements), to)
}

/// The hooks are what added plugins, and after them the plugins that a module gets
/// from the bundler, make of untapped hooks.
pub open spec fn hooks_created<P: JavascriptParserPlugin<H>, H: JavascriptParserHooks>(
    plugins: Seq<P>,
    compiler_options: CompilerOptions,
    javascript_options: JavascriptParserOptions,
    module_type: ModuleType,
    requirements: ParserRuntimeRequirementsData,
    hooks: H,
) -> bool {
    exists|untapped: H, tapped: H|
        {
            &&& call_ensures(H::default, (), untapped)
            &&& #[trigger] plugin_chain(plugins, requirements, untapped, tapped)
            &&& builtin_chain(
                plugins_of(compiler_options, javascript_options, module_type),
                requirements,
                tapped,
                hooks,
            )
        }
}

/// The parser: the plugins that were added to it, and the hooks, once they were asked
/// for.
pub struct JavaScriptParser<P, H> {
    parser_plugins: Vec<P>,
    hooks: Option<Arc<H>>,
}

impl<P, H> Default for JavaScriptParser<P, H> {
    fn default() -> (r: Self)
        ensures
            r.plugins() == Seq::<P>::empty(),
            r.initialized_hooks() is None,
    {
        JavaScriptParser { parser_plugins: Vec::new(), hooks: None }
    }
}

impl<P, H> JavaScriptParser<P, H> {
    /// The plugins that were added, in the order in which they were.
    pub closed spec fn plugins(self) -> Seq<P> {
        self.parser_plugins@
    }

    /// The hooks, once they were asked for.
    pub closed spec fn initialized_hooks(self) -> Option<Arc<H>> {
        self.hooks
    }

    /// A parser without added plugins whose hooks are known already.
    pub fn with_hooks(hooks: Arc<H>) -> (r: Self)
        ensures
            r.plugins() == Seq::<P>::empty(),
            r.initialized_hooks() == Some(hooks),
    {
        JavaScriptParser { parser_plugins: Vec::new(), hooks: Some(hooks) }
    }

    /// Whether the hooks were asked for; no plugin can be added any more then.
    pub fn hooks_initialized(&self) -> (r: bool)
        ensures
            r == (self.initialized_hooks() is Some),
    {
        self.hooks.is_some()
    }

    /// Adds a plugin after those that were added before. No plugin can be added once
    /// the hooks were asked for.
    pub fn add_parser_plugin(&mut self, parser_plugin: P)
        requires
            old(self).initialized_hooks() is None,
        ensures
            final(self).plugins() == old(self).plugins().push(parser_plugin),
            final(self).initialized_hooks() is None,
    {
        self.parser_plugins.push(parser_plugin);
    }
}

/// What asking for the hooks does: the first time it creates them, and from the second
/// time on it gives those again. The plugins stay as they are.
pub open spec fn hooks_asked<P: JavascriptParserPlugin<H>, H: JavascriptParserHooks>(
    before: JavaScriptParser<P, H>,
    after: JavaScriptParser<P, H>,
    compiler_options: CompilerOptions,
    javascript_options: JavascriptParserOptions,
    module_type: ModuleType,
    requirements: ParserRuntimeRequirementsData,
    hooks: Arc<H>,
) -> bool {
    &&& after.plugins() == before.plugins()
    &&& after.initialized_hooks() == Some(hooks)
    &&& match before.initialized_hooks() {
        Some(known) => hooks == known,
        None => hooks_created(
            before.plugins(),
            compiler_options,
            javascript_options,
            module_type,
            requirements,
            *hooks,
        ),
    }
}

impl<P: JavascriptParserPlugin<H>, H: JavascriptParserHooks> JavaScriptParser<P, H> {
    /// The hooks of the parser. They are created when they are first asked for.
    pub fn get_or_init_hooks(
        &mut self,
        compiler_options: &CompilerOptions,
        javascript_options: &JavascriptParserOptions,
        module_type: &ModuleType,
        parser_runtime_requirements: &ParserRuntimeRequirementsData,
    ) -> (r: Arc<H>)
        requires
            old(self).initialized_hooks() is None ==> worker_known(
                *javascript_options,
                *module_type,
            ),
        ensures
            hooks_asked(
                *old(self),
                *final(self),
                *compiler_options,
                *javascript_options,
                *module_type,
                *parser_runtime_requirements,
                r,
            ),
            final(self).plugins() == old(self).plugins(),
            final(self).initialized_hooks() == Some(r),
            old(self).initialized_hooks() matches Some(known) ==> r == known,
    {
        match &self.hooks {
            Some(hooks) => hooks.clone(),
            None => {
                let hooks = self.create_hooks(
                    compiler_options,
                    javascript_options,
                    module_type,
                    parser_runtime_requirements,
                );
                self.hooks = Some(hooks.clone());
                hooks
            },
        }
    }

    /// Applies the added plugins to untapped hooks, and after them those that come with
    /// the bundler.
    fn create_hooks(
        &self,
        compiler_options: &CompilerOptions,
        javascript_options: &JavascriptParserOptions,
        module_type: &ModuleType,
        parser_runtime_requirements: &ParserRuntimeRequirementsData,
    ) -> (r: Arc<H>)
        requires
            worker_known(*javascript_options, *module_type),
        ensures
            hooks_created(
                self.plugins(),
                *compiler_options,
                *javascript_options,
                *module_type,
                *parser_runtime_requirements,
                *r,
            ),
    {
        let mut hooks = H::default();
        let ghost requirements = *parser_runtime_requirements;
        let ghost untapped = hooks;
        let n: usize = self.parser_plugins.len();
        for i in 0..n
            invariant
                n == self.parser_plugins@.len(),
                requirements == *parser_runtime_requirements,
                plugin_chain(self.parser_plugins@.take(i as int), requirements, untapped, hooks),
        {
            let ghost before = hooks;
            hooks = self.parser_plugins[i].apply(hooks, parser_runtime_requirements);
            proof {
                let more = self.parser_plugins@.take(i + 1);
                assert(more.drop_last() =~= self.parser_plugins@.take(i as int));
                assert(plugin_step(more.last(), requirements, before, hooks));
            }
        }
        assert(self.parser_plugins@.take(n as int) =~= self.parser_plugins@);
        let ghost tapped = hooks;
        let plugins = builtin_plugins(compiler_options, javascript_options, module_type);
        let n: usize = plugins.len();
        for i in 0..n
            invariant
                n == plugins@.len(),
                requirements == *parser_runtime_requirements,
                builtin_chain(plugins@.take(i as int), requirements, tapped, hooks),
        {
            let ghost before = hooks;
            hooks = hooks.apply_builtin(plugins[i], parser_runtime_requirements);
            proof {
                let more = plugins@.take(i + 1);
                assert(more.drop_last() =~= plugins@.take(i as int));
                assert(builtin_step(more.last(), requirements, before, hooks));
            }
        }
        assert(plugins@.take(n as int) =~= plugins@);
        assert(plugin_chain(self.parser_plugins@, requirements, untapped, tapped));
        Arc::new(hooks)
    }
}

/// The hooks are created once: whatever the second call asks for, it gives what the
/// first one gave and changes nothing.
pub proof fn hooks_created_once<P: JavascriptParserPlugin<H>, H: JavascriptParserHooks>(
    before: JavaScriptParser<P, H>,
    between: JavaScriptParser<P, H>,
    after: JavaScriptParser<P, H>,
    first_compiler_options: CompilerOptions,
    first_javascript_options: JavascriptParserOptions,
    first_module_type: ModuleType,
    first_requirements: ParserRuntimeRequirementsData,
    first: Arc<H>,
    second_compiler_options: CompilerOptions,
    second_javascript_options: JavascriptParserOptions,
    second_module_type: ModuleType,
    second_requirements: ParserRuntimeRequirementsData,
    second: Arc<H>,
)
    requires
        hooks_asked(
            before,
            between,
            first_compiler_options,
            first_javascript_options,
            first_module_type,
            first_requirements,
            first,
        ),
        hooks_asked(
            between,
            after,
            second_compiler_options,
            second_javascript_options,
            second_module_type,
            second_requirements,
            second,
        ),
    ensures
        second == first,
        after.plugins() == between.plugins(),
        after.initialized_hooks() == between.initialized_hooks(),
{
}

/// Without added plugins the hooks are what the bundler's own plugins make of untapped
/// hooks.
pub proof fn no_added_plugins<P: JavascriptParserPlugin<H>, H: JavascriptParserHooks>(
    compiler_options: CompilerOptions,
    javascript_options: JavascriptParserOptions,
    module_type: ModuleType,
    requirements: ParserRuntimeRequirementsData,
    hooks: H,
)
    requires
        hooks_created(
            Seq::<P>::empty(),
            compiler_options,
            javascript_options,
            module_type,
            requirements,
            hooks,
        ),
    ensures
        exists|untapped: H| #[trigger]
            call_ensures(H::default, (), untapped) && builtin_chain(
                plugins_of(compiler_options, javascript_options, module_type),
                requirements,
                untapped,
                hooks,
            ),
{
}

/// Added plugins are applied one by one, from first to last, each to the hooks that the
/// one before it left, and each once. The result holds the hooks on the way.
pub proof fn plugins_applied_in_turn<P: JavascriptParserPlugin<H>, H>(
    plugins: Seq<P>,
    requirements: ParserRuntimeRequirementsData,
    from: H,
    to: H,
) -> (states: Seq<H>)
    requires
        plugin_chain(plugins, requirements, from, to),
    ensures
        states.len() == plugins.len() + 1,
        states[0] == from,
        states[plugins.len() as int] == to,
        forall|i: int|
            0 <= i < plugins.len() ==> call_ensures(
                P::apply,
                (&#[trigger] plugins[i], states[i], &requirements),
                states[i + 1],
            ),
    decreases plugins.len(),
{
    if plugins.len() == 0 {
        seq![from]
    } else {
        let less = plugins.drop_last();
        let mid = choose|mid: H|
            {
                &&& plugin_chain(less, requirements, from, mid)
                &&& #[trigger] plugin_step(plugins.last(), requirements, mid, to)
            };
        let before = plugins_applied_in_turn(less, requirements, from, mid);
        let states = before.push(to);
        assert forall|i: int| 0 <= i < plugins.len() implies call_ensures(
            P::apply,
            (&#[trigger] plugins[i], states[i], &requirements),
            states[i + 1],
        ) by {
            if i < less.len() {
                assert(less[i] == plugins[i]);
            }
        }
        states
    }
}

/// Plugins that come with the bundler are applied one by one, from first to last, each to
/// the hooks that the one before it left, and each once. The result holds the hooks on
/// the way.
pub proof fn builtin_plugins_applied_in_turn<H: JavascriptParserHooks>(
    plugins: Seq<BuiltinPlugin<'_>>,
    requirements: ParserRuntimeRequirementsData,
    from: H,
    to: H,
) -> (states: Seq<H>)
    requires
        builtin_chain(plugins, requirements, from, to),
    ensures
        states.len() == plugins.len() + 1,
        states[0] == from,
        states[plugins.len() as int] == to,
        forall|i: int|
            0 <= i < plugins.len() ==> call_ensures(
                H::apply_builtin,
                (states[i], #[trigger] plugins[i], &requirements),
                states[i + 1],
            ),
    decreases plugins.len(),
{
    if plugins.len() == 0 {
        seq![from]
    } else {
        let less = plugins.drop_last();
        let mid = choose|mid: H|
            {
                &&& builtin_chain(less, requirements, from, mid)
                &&& #[trigger] builtin_step(plugins.last(), requirements, mid, to)
            };
        let before = builtin_plugins_applied_in_turn(less, requirements, from, mid);
        let states = before.push(to);
        assert forall|i: int| 0 <= i < plugins.len() implies call_ensures(
            H::apply_builtin,
            (states[i], #[trigger] plugins[i], &requirements),
            states[i + 1],
        ) by {
            if i < less.len() {
                assert(less[i] == plugins[i]);
            }
        }
        states
    }
}

/// The hooks behind a shared reference.
spec fn shared<H>(hooks: Arc<H>) -> H {
    *hooks
}

/// The hooks of a parser are what came of untapped hooks when every added plugin, from
/// first to last, and then every plugin that the module gets from the bundler, from first
/// to last, was applied once. The result holds the hooks on the way.
pub proof fn hooks_tapped_by_added_plugins_first<
    P: JavascriptParserPlugin<H>,
    H: JavascriptParserHooks,
>(
    before: JavaScriptParser<P, H>,
    after: JavaScriptParser<P, H>,
    compiler_options: CompilerOptions,
    javascript_options: JavascriptParserOptions,
    module_type: ModuleType,
    requirements: ParserRuntimeRequirementsData,
    hooks: Arc<H>,
) -> (states: Seq<H>)
    requires
        hooks_asked(
            before,
            after,
            compiler_options,
            javascript_options,
            module_type,
            requirements,
            hooks,
        ),
        before.initialized_hooks() is None,
    ensures
        ({
            let added = before.plugins();
            let builtin = plugins_of(compiler_options, javascript_options, module_type);
            &&& states.len() == added.len() + builtin.len() + 1
            &&& call_ensures(H::default, (), states[0])
            &&& forall|i: int|
                0 <= i < added.len() ==> call_ensures(
                    P::apply,
                    (&#[trigger] added[i], states[i], &requirements),
                    states[i + 1],
                )
            &&& forall|i: int|
                0 <= i < builtin.len() ==> call_ensures(
                    H::apply_builtin,
                    (states[added.len() + i], #[trigger] builtin[i], &requirements),
                    states[added.len() + i + 1],
                )
            &&& states[(added.len() + builtin.len()) as int] == *hooks
        }),
{
    let added = before.plugins();
    let builtin = plugins_of(compiler_options, javascript_options, module_type);
    let (untapped, tapped) = choose|untapped: H, tapped: H|
        {
            &&& call_ensures(H::default, (), untapped)
            &&& #[trigger] plugin_chain(added, requirements, untapped, tapped)
            &&& builtin_chain(builtin, requirements, tapped, *hooks)
        };
    let first = plugins_applied_in_turn(added, requirements, untapped, tapped);
    let second = builtin_plugins_applied_in_turn(builtin, requirements, tapped, shared(hooks));
    let states = first + second.drop_first();
    assert forall|i: int| 0 <= i < builtin.len() implies call_ensures(
        H::apply_builtin,
        (states[added.len() + i], #[trigger] builtin[i], &requirements),
        states[added.len() + i + 1],
    ) by {
        assert(states[added.len() + i] == second[i]);
        assert(states[added.len() + i + 1] == second[i + 1]);
    }
    states
}

/// Asking for the hooks never changes the added plugins, and leaves the parser with the
/// hooks that it gives. Hooks that are there already are given again.
pub proof fn hooks_stay<P: JavascriptParserPlugin<H>, H: JavascriptParserHooks>(
    before: JavaScriptParser<P, H>,
    after: JavaScriptParser<P, H>,
    compiler_options: CompilerOptions,
    javascript_options: JavascriptParserOptions,
    module_type: ModuleType,
    requirements: ParserRuntimeRequirementsData,
    hooks: Arc<H>,
)
    requires
        hooks_asked(
            before,
            after,
            compiler_options,
            javascript_options,
            module_type,
            requirements,
            hooks,
        ),
    ensures
        after.plugins() == before.plugins(),
        after.initialized_hooks() == Some(hooks),
        before.initialized_hooks() is Some ==> before.initialized_hooks() == Some(hooks),
{
}

} // verus!
