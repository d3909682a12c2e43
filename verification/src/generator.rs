//! Code generation for JavaScript modules.

use vstd::prelude::*;

use crate::graph::{
    AsyncDependenciesBlockIdentifier, BuildMetaExportsType, CodeGenerationDependency, Compilation,
    DependencyId, DependencyTemplateType, Module, ModuleGraph, PresentationalDependency,
};
use crate::module_type::SourceType;
use crate::render::{
    block_renders_dependencies_first, module_renders_its_parts_in_turn, nested_block_renderable,
    presentational_renders, presentational_renders_of, render_chain, render_chain_of_one,
    render_chains_join, render_of, render_step, rendered_in_turn, DependencyTemplate, Render,
};

verus! {

/// What a generator tells about a module, apart from the code that it generates.
pub trait Generator<D> {
    /// What the generator reads of the chunk graph.
    type ChunkGraph;

    /// The types of the sources that the module is rendered to.
    fn source_types(&self, module: &Module<D>, module_graph: &ModuleGraph<D>) -> Vec<SourceType>;

    /// The size of the module in bytes.
    fn size(&self, module: &Module<D>, source_type: Option<&SourceType>) -> usize;

    /// Why the module cannot be concatenated with others, if it cannot.
    fn get_concatenation_bailout_reason(
        &self,
        module: &Module<D>,
        mg: &ModuleGraph<D>,
        cg: &Self::ChunkGraph,
    ) -> Option<String>;
}

/// The generator of JavaScript modules.
#[derive(Clone, Copy, Debug, Default)]
pub struct JavaScriptGenerator;

/// What is asked of a generator, and what it carries on from module to module.
/// `C` is the type of a concatenation scope, `X` that of the host's own data.
pub struct GenerateContext<C, X> {
    pub requested_source_type: SourceType,
    pub concatenation_scope: Option<C>,
    pub data: X,
}

/// What templates render into: the replaced source, the fragments that go in front
/// of it, the concatenation scope and the host's data.
pub struct TemplateContext<R, F, C, X> {
    pub source: R,
    pub init_fragments: Vec<F>,
    pub concatenation_scope: Option<C>,
    pub data: X,
}

/// The state that the templates find when the generator starts.
pub open spec fn starts_with<R, F, C, X>(
    start: TemplateContext<R, F, C, X>,
    source: R,
    context: GenerateContext<C, X>,
) -> bool {
    &&& start.source == source
    &&& start.init_fragments@ == Seq::<F>::empty()
    &&& start.concatenation_scope == context.concatenation_scope
    &&& start.data == context.data
}

impl JavaScriptGenerator {
    /// Renders a block: its dependencies, and after them the blocks in it.
    pub fn source_block<T: DependencyTemplate<D, S>, D, S>(
        &self,
        compilation: &Compilation<T, D>,
        block_id: AsyncDependenciesBlockIdentifier,
        state: S,
    ) -> (r: S)
        requires
            compilation.block_renderable(block_id),
        ensures
            render_chain(
                compilation.dependency_templates@,
                compilation.block_renders(block_id),
                state,
                r,
            ),
        decreases compilation.block_depth(block_id),
    {
        let ghost templates = compilation.dependency_templates@;
        let ghost before = state;
        let block = compilation.module_graph.block_by_id(block_id).unwrap();
        assert(compilation.dependencies_renderable(block.dependencies@));
        let mut state = self.source_dependencies(compilation, &block.dependencies, state);
        let ghost between = state;
        let ghost ids = block.blocks@;
        let ghost first = compilation.dependencies_renders(block.dependencies@);
        let n: usize = block.blocks.len();
        for i in 0..n
            invariant
                n == ids.len(),
                ids == block.blocks@,
                *block == compilation.block(block_id),
                templates == compilation.dependency_templates@,
                compilation.block_renderable(block_id),
                render_chain(
                    templates,
                    compilation.blocks_renders(ids.take(i as int)),
                    between,
                    state,
                ),
        {
            let ghost last = state;
            proof {
                nested_block_renderable(*compilation, block_id, i as int);
            }
            state = self.source_block(compilation, block.blocks[i], state);
            proof {
                let done = ids.take(i as int);
                let more = ids.take(i + 1);
                assert(more.drop_last() =~= done);
                assert(more.last() == ids[i as int]);
                render_chains_join(
                    templates,
                    compilation.blocks_renders(done),
                    compilation.block_renders(ids[i as int]),
                    between,
                    last,
                    state,
                );
            }
        }
        proof {
            assert(ids.take(n as int) =~= ids);
            render_chains_join(
                templates,
                first,
                compilation.blocks_renders(ids),
                before,
                between,
                state,
            );
            block_renders_dependencies_first(*compilation, block_id);
        }
        state
    }

    /// Renders a dependency, if it takes part in code generation.
    pub fn source_dependency<T: DependencyTemplate<D, S>, D, S>(
        &self,
        compilation: &Compilation<T, D>,
        dependency_id: DependencyId,
        state: S,
    ) -> (r: S)
        requires
            compilation.dependency_renderable(dependency_id),
        ensures
            render_chain(
                compilation.dependency_templates@,
                compilation.dependency_renders(dependency_id),
                state,
                r,
            ),
    {
        match &compilation.module_graph.dependency_by_id(dependency_id).code_generation {
            Some(code_generation) => self.render_found(compilation, code_generation, state),
            None => state,
        }
    }

    /// Renders dependencies, one after the other.
    fn source_dependencies<T: DependencyTemplate<D, S>, D, S>(
        &self,
        compilation: &Compilation<T, D>,
        ids: &Vec<DependencyId>,
        state: S,
    ) -> (r: S)
        requires
            compilation.dependencies_renderable(ids@),
        ensures
            render_chain(
                compilation.dependency_templates@,
                compilation.dependencies_renders(ids@),
                state,
                r,
            ),
    {
        let ghost templates = compilation.dependency_templates@;
        let ghost before = state;
        let mut state = state;
        let n: usize = ids.len();
        for i in 0..n
            invariant
                n == ids@.len(),
                templates == compilation.dependency_templates@,
                compilation.dependencies_renderable(ids@),
                render_chain(
                    templates,
                    compilation.dependencies_renders(ids@.take(i as int)),
                    before,
                    state,
                ),
        {
            let ghost last = state;
            state = self.source_dependency(compilation, ids[i], state);
            proof {
                let done = ids@.take(i as int);
                let more = ids@.take(i + 1);
                assert(more.drop_last() =~= done);
                assert(more.last() == ids@[i as int]);
                render_chains_join(
                    templates,
                    compilation.dependencies_renders(done),
                    compilation.dependency_renders(ids@[i as int]),
                    before,
                    last,
                    state,
                );
            }
        }
        proof {
            assert(ids@.take(n as int) =~= ids@);
        }
        state
    }

    /// Renders presentational dependencies, one after the other.
    fn source_presentational<T: DependencyTemplate<D, S>, D, S>(
        &self,
        compilation: &Compilation<T, D>,
        dependencies: &Vec<PresentationalDependency<D>>,
        state: S,
    ) -> (r: S)
        requires
            compilation.presentational_renderable(dependencies@),
        ensures
            render_chain(
                compilation.dependency_templates@,
                presentational_renders(dependencies@),
                state,
                r,
            ),
    {
        let ghost templates = compilation.dependency_templates@;
        let ghost before = state;
        let mut state = state;
        let n: usize = dependencies.len();
        for i in 0..n
            invariant
                n == dependencies@.len(),
                templates == compilation.dependency_templates@,
                compilation.presentational_renderable(dependencies@),
                render_chain(
                    templates,
                    presentational_renders(dependencies@.take(i as int)),
                    before,
                    state,
                ),
        {
            let ghost last = state;
            state = self.render_found(compilation, &dependencies[i].code_generation, state);
            proof {
                let done = presentational_renders(dependencies@.take(i as int));
                let render = render_of(dependencies@[i as int].code_generation);
                assert(presentational_renders(dependencies@.take(i + 1)) =~= done + seq![render]);
                render_chains_join(templates, done, seq![render], before, last, state);
            }
        }
        proof {
            assert(dependencies@.take(n as int) =~= dependencies@);
        }
        state
    }

    /// Renders with the template that is there.
    fn render_found<T: DependencyTemplate<D, S>, D, S>(
        &self,
        compilation: &Compilation<T, D>,
        code_generation: &CodeGenerationDependency<D>,
        state: S,
    ) -> (r: S)
        requires
            compilation.template_found(*code_generation),
        ensures
            render_chain(
                compilation.dependency_templates@,
                seq![render_of(*code_generation)],
                state,
                r,
            ),
    {
        let ghost before = state;
        let template_type = code_generation.template_type.unwrap();
        let template = compilation.get_dependency_template(template_type).unwrap();
        let after = template.render(&code_generation.dependency, state);
        proof {
            render_chain_of_one(
                compilation.dependency_templates@,
                render_of(*code_generation),
                before,
                after,
            );
        }
        after
    }

    /// Generates the code of a module: renders its dependencies, its presentational
    /// dependencies and its blocks, in this order, into `source`. The result holds
    /// what was rendered and the fragments that go in front of it; the context comes
    /// back with the concatenation scope and the data that the templates left.
    pub fn generate<
        T: DependencyTemplate<D, TemplateContext<R, F, C, X>>,
        D,
        R,
        F,
        C,
        X,
    >(
        &self,
        source: R,
        module: &Module<D>,
        compilation: &Compilation<T, D>,
        generate_context: GenerateContext<C, X>,
    ) -> (r: (R, Vec<F>, GenerateContext<C, X>))
        requires
            generate_context.requested_source_type is JavaScript,
            compilation.module_renderable(*module),
        ensures
            exists|start: TemplateContext<R, F, C, X>| #[trigger]
                starts_with(start, source, generate_context) && render_chain(
                    compilation.dependency_templates@,
                    compilation.module_renders(*module),
                    start,
                    (TemplateContext {
                        source: r.0,
                        init_fragments: r.1,
                        concatenation_scope: r.2.concatenation_scope,
                        data: r.2.data,
                    }),
                ),
            r.2.requested_source_type == generate_context.requested_source_type,
    {
        let ghost templates = compilation.dependency_templates@;
        let ghost old_context = generate_context;
        let requested_source_type = generate_context.requested_source_type;
        let context = TemplateContext {
            source,
            init_fragments: Vec::new(),
            concatenation_scope: generate_context.concatenation_scope,
            data: generate_context.data,
        };
        let ghost start = context;
        let context = self.source_dependencies(compilation, &module.dependencies, context);
        let ghost second = context;
        let context = match &module.presentational_dependencies {
            Some(dependencies) => self.source_presentational(compilation, dependencies, context),
            None => context,
        };
        let ghost third = context;
        let mut context = context;
        let ghost ids = module.blocks@;
        let n: usize = module.blocks.len();
        for i in 0..n
            invariant
                n == ids.len(),
                ids == module.blocks@,
                templates == compilation.dependency_templates@,
                compilation.blocks_renderable(ids),
                render_chain(
                    templates,
                    compilation.blocks_renders(ids.take(i as int)),
                    third,
                    context,
                ),
        {
            let ghost last = context;
            context = self.source_block(compilation, module.blocks[i], context);
            proof {
                let done = ids.take(i as int);
                let more = ids.take(i + 1);
                assert(more.drop_last() =~= done);
                assert(more.last() == ids[i as int]);
                render_chains_join(
                    templates,
                    compilation.blocks_renders(done),
                    compilation.block_renders(ids[i as int]),
                    third,
                    last,
                    context,
                );
            }
        }
        proof {
            assert(ids.take(n as int) =~= ids);
            let first = compilation.dependencies_renders(module.dependencies@);
            let presentational = presentational_renders_of(*module);
            render_chains_join(templates, first, presentational, start, second, third);
            render_chains_join(
                templates,
                first + presentational,
                compilation.blocks_renders(ids),
                start,
                third,
                context,
            );
            assert(starts_with(start, source, old_context));
        }
        let generate_context = GenerateContext {
            requested_source_type,
            concatenation_scope: context.concatenation_scope,
            data: context.data,
        };
        (context.source, context.init_fragments, generate_context)
    }
}

/// Why a module cannot be concatenated: it is no ES module, or it uses a feature
/// that rules it out.
pub open spec fn concatenation_bailout_reason<D>(module: Module<D>) -> Option<Seq<char>> {
    if !is_concatenable_esm(module) {
        Some("Module is not an ECMAScript module"@)
    } else {
        match module.module_concatenation_bailout {
            Some(bailout) => Some("Module uses "@ + bailout@),
            None => None,
        }
    }
}

/// Only ES modules are valid for concatenation: their exports are a namespace, and
/// one of their presentational dependencies marks them.
pub open spec fn is_concatenable_esm<D>(module: Module<D>) -> bool {
    &&& module.exports_type is Namespace
    &&& module.presentational_dependencies matches Some(dependencies) && has_esm_mark(dependencies@)
}

/// Some presentational dependency marks an ES module.
pub open spec fn has_esm_mark<D>(dependencies: Seq<PresentationalDependency<D>>) -> bool {
    exists|i: int|
        0 <= i < dependencies.len() && (#[trigger] dependencies[i]).is_esm_compatibility
}

/// Whether some presentational dependency marks an ES module.
fn marks_esm<D>(dependencies: &Vec<PresentationalDependency<D>>) -> (r: bool)
    ensures
        r == has_esm_mark(dependencies@),
        r <==> exists|i: int|
            0 <= i < dependencies@.len() && (#[trigger] dependencies@[i]).is_esm_compatibility,
{
    let n: usize = dependencies.len();
    for i in 0..n
        invariant
            n == dependencies@.len(),
            forall|j: int|
                0 <= j < i ==> !(#[trigger] dependencies@[j]).is_esm_compatibility,
    {
        if dependencies[i].is_esm_compatibility {
            return true;
        }
    }
    false
}

impl<D> Generator<D> for JavaScriptGenerator {
    /// Nothing is read of it.
    type ChunkGraph = ();

    /// A JavaScript module is rendered to JavaScript only.
    fn source_types(&self, _module: &Module<D>, _module_graph: &ModuleGraph<D>) -> (r: Vec<
        SourceType,
    >)
        ensures
            r@ == seq![SourceType::JavaScript],
    {
        vec![SourceType::JavaScript]
    }

    /// The size of the module's source; zero for a module without one.
    fn size(&self, module: &Module<D>, _source_type: Option<&SourceType>) -> (r: usize)
        ensures
            r == (match module.source_size {
                Some(size) => size,
                None => 0,
            }),
    {
        match module.source_size {
            Some(size) => size,
            None => 0,
        }
    }

    fn get_concatenation_bailout_reason(
        &self,
        module: &Module<D>,
        _mg: &ModuleGraph<D>,
        _cg: &(),
    ) -> (r: Option<String>)
        ensures
            r is Some <==> concatenation_bailout_reason(*module) is Some,
            r matches Some(reason) ==> Some(reason@) == concatenation_bailout_reason(*module),
            r is None <==> {
                &&& module.exports_type == BuildMetaExportsType::Namespace
                &&& module.presentational_dependencies is Some
                &&& exists|i: int|
                    0 <= i < module.presentational_dependencies->0@.len() && (
                    #[trigger] module.presentational_dependencies->0@[i]).is_esm_compatibility
                &&& module.module_concatenation_bailout is None
            },
    {
        if module.exports_type != BuildMetaExportsType::Namespace {
            return Some("Module is not an ECMAScript module".to_owned());
        }
        match &module.presentational_dependencies {
            Some(dependencies) => {
                if !marks_esm(dependencies) {
                    return Some("Module is not an ECMAScript module".to_owned());
                }
            },
            None => {
                return Some("Module is not an ECMAScript module".to_owned());
            },
        }
        match &module.module_concatenation_bailout {
            Some(bailout) => {
                let mut reason = "Module uses ".to_owned();
                reason.append(bailout.as_str());
                Some(reason)
            },
            None => None,
        }
    }
}

/// A module may be concatenated exactly if it is a marked ES module and uses no
/// feature that rules it out.
pub proof fn concatenation_allowed_iff<D>(module: Module<D>)
    ensures
        concatenation_bailout_reason(module) is None <==> is_concatenable_esm(module)
            && module.module_concatenation_bailout is None,
{
}

/// A module with nothing to render leaves the state as it was.
pub proof fn nothing_rendered_changes_nothing<T: DependencyTemplate<D, S>, D, S>(
    compilation: Compilation<T, D>,
    module: Module<D>,
    from: S,
    to: S,
)
    requires
        module.dependencies@.len() == 0,
        module.presentational_dependencies matches Some(dependencies) ==> dependencies@.len() == 0,
        module.blocks@.len() == 0,
        render_chain(
            compilation.dependency_templates@,
            compilation.module_renders(module),
            from,
            to,
        ),
    ensures
        from == to,
{
    assert(compilation.module_renders(module).len() == 0);
}

/// Where every template gives one result for one dependency and one state, one
/// chain of calls gives one result.
pub proof fn rendering_is_deterministic<T: DependencyTemplate<D, S>, D, S>(
    templates: Map<DependencyTemplateType, T>,
    renders: Seq<Render<D>>,
    from: S,
    one: S,
    other: S,
)
    requires
        forall|template: T, dependency: D, state: S, a: S, b: S|
            #![trigger call_ensures(T::render, (&template, &dependency, state), a),
                call_ensures(T::render, (&template, &dependency, state), b)]
            call_ensures(T::render, (&template, &dependency, state), a) && call_ensures(
                T::render,
                (&template, &dependency, state),
                b,
            ) ==> a == b,
        render_chain(templates, renders, from, one),
        render_chain(templates, renders, from, other),
    ensures
        one == other,
    decreases renders.len(),
{
    if renders.len() > 0 {
        let a = choose|mid: S|
            {
                &&& render_chain(templates, renders.drop_last(), from, mid)
                &&& #[trigger] render_step(templates, renders.last(), mid, one)
            };
        let b = choose|mid: S|
            {
                &&& render_chain(templates, renders.drop_last(), from, mid)
                &&& #[trigger] render_step(templates, renders.last(), mid, other)
            };
        rendering_is_deterministic(templates, renders.drop_last(), from, a, b);
    }
}

/// Whether and why a module cannot be concatenated. It can only if its exports are a
/// namespace, if one of its presentational dependencies, wherever that stands, is the mark
/// of an ES module, and if it uses no feature that rules it out. That it is no ES module
/// comes first, and a feature is named.
pub proof fn concatenation_asks_for_namespace_and_mark<D>(module: Module<D>)
    ensures
        ({
            let reason = concatenation_bailout_reason(module);
            let not_esm = Some("Module is not an ECMAScript module"@);
            &&& module.exports_type != BuildMetaExportsType::Namespace ==> reason == not_esm
            &&& module.presentational_dependencies is None ==> reason == not_esm
            &&& module.presentational_dependencies matches Some(dependencies) ==> {
                &&& (forall|i: int|
                    0 <= i < dependencies@.len() ==> !(
                    #[trigger] dependencies@[i]).is_esm_compatibility) ==> reason == not_esm
                &&& forall|i: int|
                    0 <= i < dependencies@.len() && (
                    #[trigger] dependencies@[i]).is_esm_compatibility && module.exports_type
                        == BuildMetaExportsType::Namespace ==> {
                        &&& module.module_concatenation_bailout is None ==> reason is None
                        &&& module.module_concatenation_bailout matches Some(bailout) ==> reason
                            == Some("Module uses "@ + bailout@)
                    }
            }
        }),
{
}

/// The order of a module's presentational dependencies does not matter to concatenation.
pub proof fn order_does_not_matter_to_concatenation<D>(one: Module<D>, other: Module<D>)
    requires
        one.exports_type == other.exports_type,
        one.module_concatenation_bailout == other.module_concatenation_bailout,
        one.presentational_dependencies matches Some(a)
            && other.presentational_dependencies matches Some(b) && a@.to_multiset()
            == b@.to_multiset(),
    ensures
        concatenation_bailout_reason(one) == concatenation_bailout_reason(other),
{
    let a = one.presentational_dependencies->0@;
    let b = other.presentational_dependencies->0@;
    mark_stays_when_reordered(a, b);
    mark_stays_when_reordered(b, a);
}

/// What was a mark in one order is a mark in another.
proof fn mark_stays_when_reordered<D>(
    a: Seq<PresentationalDependency<D>>,
    b: Seq<PresentationalDependency<D>>,
)
    requires
        a.to_multiset() == b.to_multiset(),
    ensures
        has_esm_mark(a) ==> has_esm_mark(b),
{
    broadcast use vstd::seq_lib::group_to_multiset_ensures;

    if has_esm_mark(a) {
        let i = choose|i: int| 0 <= i < a.len() && (#[trigger] a[i]).is_esm_compatibility;
        assert(a.contains(a[i]));
        assert(a.to_multiset().count(a[i]) > 0);
        assert(b.to_multiset().count(a[i]) > 0);
        assert(b.contains(a[i]));
        let j = choose|j: int| 0 <= j < b.len() && b[j] == a[i];
        assert(b[j].is_esm_compatibility);
    }
}

/// Generating code starts with the source, without fragments, and with the scope and the
/// data of the context. From there each call that the module asks for is made once, in
/// turn, on what the one before it left. A presentational dependency is rendered by its
/// own template, behind all dependencies and in its place among its like, whatever else
/// the module has. The result holds the states on the way.
pub proof fn every_call_is_made_in_turn<
    T: DependencyTemplate<D, TemplateContext<R, F, C, X>>,
    D,
    R,
    F,
    C,
    X,
>(
    compilation: Compilation<T, D>,
    module: Module<D>,
    source: R,
    generate_context: GenerateContext<C, X>,
    start: TemplateContext<R, F, C, X>,
    end: TemplateContext<R, F, C, X>,
) -> (states: Seq<TemplateContext<R, F, C, X>>)
    requires
        starts_with(start, source, generate_context),
        render_chain(
            compilation.dependency_templates@,
            compilation.module_renders(module),
            start,
            end,
        ),
    ensures
        states.len() == compilation.module_renders(module).len() + 1,
        states[0].source == source,
        states[0].init_fragments@.len() == 0,
        states[0].concatenation_scope == generate_context.concatenation_scope,
        states[0].data == generate_context.data,
        states[states.len() - 1] == end,
        forall|i: int|
            0 <= i < compilation.module_renders(module).len() ==> call_ensures(
                T::render,
                (
                    &compilation.dependency_templates@[(#[trigger] compilation.module_renders(
                        module,
                    )[i]).template_type],
                    &compilation.module_renders(module)[i].dependency,
                    states[i],
                ),
                states[i + 1],
            ),
        module.presentational_dependencies matches Some(dependencies) ==> forall|i: int|
            0 <= i < dependencies@.len() ==> {
                let first = compilation.dependencies_renders(module.dependencies@).len();
                let code_generation = (#[trigger] dependencies@[i]).code_generation;
                call_ensures(
                    T::render,
                    (
                        &compilation.dependency_templates@[code_generation.template_type->0],
                        &code_generation.dependency,
                        states[first + i],
                    ),
                    states[first + i + 1],
                )
            },
{
    let renders = compilation.module_renders(module);
    let states = rendered_in_turn(compilation.dependency_templates@, renders, start, end);
    module_renders_its_parts_in_turn(compilation, module);
    let first = compilation.dependencies_renders(module.dependencies@).len();
    if let Some(dependencies) = module.presentational_dependencies {
        assert forall|i: int| 0 <= i < dependencies@.len() implies {
            let code_generation = (#[trigger] dependencies@[i]).code_generation;
            call_ensures(
                T::render,
                (
                    &compilation.dependency_templates@[code_generation.template_type->0],
                    &code_generation.dependency,
                    states[first + i],
                ),
                states[first + i + 1],
            )
        } by {
            assert(renders[first + i].dependency == dependencies@[i].code_generation.dependency);
        }
    }
    states
}

} // verus!
