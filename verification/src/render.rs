//! What is rendered for a dependency, a block and a module, in which order, and
//! when a compilation has everything that this takes.

use vstd::prelude::*;

use crate::graph::{
    AsyncDependenciesBlock, AsyncDependenciesBlockIdentifier, CodeGenerationDependency, Compilation,
    DependencyId, DependencyTemplateType, Module, PresentationalDependency,
};

verus! {

/// A template that renders dependencies of type `D` into a state of type `S`.
pub trait DependencyTemplate<D, S> {
    /// Renders a dependency: takes the state before and gives the state after.
    fn render(&self, dependency: &D, state: S) -> S;
}

/// One call of a template: its type, and the dependency that it renders.
pub struct Render<D> {
    pub template_type: DependencyTemplateType,
    pub dependency: D,
}

/// The templates, called on `renders` from first to last, can take the state
/// `from` to the state `to`.
pub open spec fn render_chain<T: DependencyTemplate<D, S>, D, S>(
    templates: Map<DependencyTemplateType, T>,
    renders: Seq<Render<D>>,
    from: S,
    to: S,
) -> bool
    decreases renders.len(),
{
    if renders.len() == 0 {
        from == to
    } else {
        exists|mid: S|
            {
                &&& render_chain(templates, renders.drop_last(), from, mid)
                &&& #[trigger] render_step(templates, renders.last(), mid, to)
            }
    }
}

/// One call of a template can take the state `from` to the state `to`.
pub open spec fn render_step<T: DependencyTemplate<D, S>, D, S>(
    templates: Map<DependencyTemplateType, T>,
    render: Render<D>,
    from: S,
    to: S,
) -> bool {
    call_ensures(T::render, (&templates[render.template_type], &render.dependency, from), to)
}

/// The call that a dependency asks for.
pub open spec fn render_of<D>(code_generation: CodeGenerationDependency<D>) -> Render<D> {
    Render {
        template_type: code_generation.template_type->0,
        dependency: code_generation.dependency,
    }
}

impl<T, D> Compilation<T, D> {
    /// The compilation has a template for what a dependency asks for.
    pub open spec fn template_found(self, code_generation: CodeGenerationDependency<D>) -> bool {
        &&& code_generation.template_type is Some
        &&& self.dependency_templates@.contains_key(code_generation.template_type->0)
    }

    /// The graph has the dependency, and a template for it if it is rendered.
    pub open spec fn dependency_renderable(self, id: DependencyId) -> bool {
        &&& self.module_graph.dependencies@.contains_key(id)
        &&& self.module_graph.dependencies@[id].code_generation matches Some(code_generation)
            ==> self.template_found(code_generation)
    }

    /// What is rendered for a dependency: nothing, or one call.
    pub open spec fn dependency_renders(self, id: DependencyId) -> Seq<Render<D>> {
        match self.module_graph.dependencies@[id].code_generation {
            Some(code_generation) => seq![render_of(code_generation)],
            None => Seq::empty(),
        }
    }

    /// What is rendered for dependencies, one after the other.
    pub open spec fn dependencies_renders(self, ids: Seq<DependencyId>) -> Seq<Render<D>>
        decreases ids.len(),
    {
        if ids.len() == 0 {
            Seq::empty()
        } else {
            self.dependencies_renders(ids.drop_last()) + self.dependency_renders(ids.last())
        }
    }

    /// Every dependency is renderable.
    pub open spec fn dependencies_renderable(self, ids: Seq<DependencyId>) -> bool {
        forall|i: int| 0 <= i < ids.len() ==> self.dependency_renderable(#[trigger] ids[i])
    }

    /// The block with an identifier.
    pub open spec fn block(self, id: AsyncDependenciesBlockIdentifier) -> AsyncDependenciesBlock {
        self.module_graph.blocks@[id]
    }

    /// The graph has the block and all that is nested in it down to `depth` levels,
    /// nothing is nested deeper, and every dependency in it is renderable.
    pub open spec fn block_renderable_within(
        self,
        id: AsyncDependenciesBlockIdentifier,
        depth: nat,
    ) -> bool
        decreases depth,
    {
        &&& depth > 0
        &&& self.module_graph.blocks@.contains_key(id)
        &&& self.dependencies_renderable(self.block(id).dependencies@)
        &&& forall|i: int|
            0 <= i < self.block(id).blocks@.len() ==> self.block_renderable_within(
                #[trigger] self.block(id).blocks@[i],
                (depth - 1) as nat,
            )
    }

    /// A block can be rendered: the graph has it and all that is nested in it, it is
    /// not nested in itself, and every dependency in it is renderable.
    pub open spec fn block_renderable(self, id: AsyncDependenciesBlockIdentifier) -> bool {
        exists|depth: nat| self.block_renderable_within(id, depth)
    }

    /// Every block can be rendered.
    pub open spec fn blocks_renderable(self, ids: Seq<AsyncDependenciesBlockIdentifier>) -> bool {
        forall|i: int| 0 <= i < ids.len() ==> self.block_renderable(#[trigger] ids[i])
    }

    /// The number of levels of a renderable block.
    #[verifier::opaque]
    pub open spec fn block_depth(self, id: AsyncDependenciesBlockIdentifier) -> nat {
        choose|depth: nat|
            {
                &&& self.block_renderable_within(id, depth)
                &&& forall|less: nat| less < depth ==> !self.block_renderable_within(id, less)
            }
    }

    /// What is rendered for a block, no deeper than `depth` levels: its dependencies
    /// in order, and after them the blocks in it in order.
    pub open spec fn block_renders_within(
        self,
        id: AsyncDependenciesBlockIdentifier,
        depth: nat,
    ) -> Seq<Render<D>>
        decreases depth, 0nat,
    {
        if depth == 0 {
            Seq::empty()
        } else {
            self.dependencies_renders(self.block(id).dependencies@) + self.blocks_renders_within(
                self.block(id).blocks@,
                (depth - 1) as nat,
            )
        }
    }

    /// What is rendered for blocks, one after the other, no deeper than `depth` levels.
    pub open spec fn blocks_renders_within(
        self,
        ids: Seq<AsyncDependenciesBlockIdentifier>,
        depth: nat,
    ) -> Seq<Render<D>>
        decreases depth, ids.len(),
    {
        if ids.len() == 0 {
            Seq::empty()
        } else {
            self.blocks_renders_within(ids.drop_last(), depth) + self.block_renders_within(
                ids.last(),
                depth,
            )
        }
    }

    /// What is rendered for a renderable block.
    pub open spec fn block_renders(self, id: AsyncDependenciesBlockIdentifier) -> Seq<Render<D>> {
        self.block_renders_within(id, self.block_depth(id))
    }

    /// What is rendered for renderable blocks, one after the other.
    pub open spec fn blocks_renders(self, ids: Seq<AsyncDependenciesBlockIdentifier>) -> Seq<
        Render<D>,
    >
        decreases ids.len(),
    {
        if ids.len() == 0 {
            Seq::empty()
        } else {
            self.blocks_renders(ids.drop_last()) + self.block_renders(ids.last())
        }
    }

    /// Every presentational dependency has its template.
    pub open spec fn presentational_renderable(
        self,
        dependencies: Seq<PresentationalDependency<D>>,
    ) -> bool {
        forall|i: int|
            0 <= i < dependencies.len() ==> self.template_found(
                (#[trigger] dependencies[i]).code_generation,
            )
    }

    /// A module can be rendered: its dependencies, its presentational dependencies
    /// and its blocks all can.
    pub open spec fn module_renderable(self, module: Module<D>) -> bool {
        &&& self.dependencies_renderable(module.dependencies@)
        &&& module.presentational_dependencies matches Some(dependencies)
            ==> self.presentational_renderable(dependencies@)
        &&& self.blocks_renderable(module.blocks@)
    }

    /// What is rendered for a module: its dependencies, after them its presentational
    /// dependencies, and its blocks last.
    pub open spec fn module_renders(self, module: Module<D>) -> Seq<Render<D>> {
        self.dependencies_renders(module.dependencies@) + presentational_renders_of(module)
            + self.blocks_renders(module.blocks@)
    }
}

/// What is rendered for presentational dependencies: each one, in order.
pub open spec fn presentational_renders<D>(
    dependencies: Seq<PresentationalDependency<D>>,
) -> Seq<Render<D>> {
    dependencies.map_values(|d: PresentationalDependency<D>| render_of(d.code_generation))
}

/// What is rendered for the presentational dependencies of a module.
pub open spec fn presentational_renders_of<D>(module: Module<D>) -> Seq<Render<D>> {
    match module.presentational_dependencies {
        Some(dependencies) => presentational_renders(dependencies@),
        None => Seq::empty(),
    }
}

/// Chains can be joined: what takes `from` to `mid`, followed by what takes `mid`
/// to `to`, takes `from` to `to`.
pub proof fn render_chains_join<T: DependencyTemplate<D, S>, D, S>(
    templates: Map<DependencyTemplateType, T>,
    first: Seq<Render<D>>,
    second: Seq<Render<D>>,
    from: S,
    mid: S,
    to: S,
)
    requires
        render_chain(templates, first, from, mid),
        render_chain(templates, second, mid, to),
    ensures
        render_chain(templates, first + second, from, to),
    decreases second.len(),
{
    if second.len() == 0 {
        assert(first + second =~= first);
    } else {
        let inner = choose|inner: S|
            {
                &&& render_chain(templates, second.drop_last(), mid, inner)
                &&& #[trigger] render_step(templates, second.last(), inner, to)
            };
        render_chains_join(templates, first, second.drop_last(), from, mid, inner);
        assert((first + second).drop_last() =~= first + second.drop_last());
        assert((first + second).last() == second.last());
    }
}

/// A chain of one call is that call.
pub proof fn render_chain_of_one<T: DependencyTemplate<D, S>, D, S>(
    templates: Map<DependencyTemplateType, T>,
    render: Render<D>,
    from: S,
    to: S,
)
    ensures
        render_chain(templates, seq![render], from, to) <==> render_step(
            templates,
            render,
            from,
            to,
        ),
{
    let one = seq![render];
    assert(one.last() == render);
    assert forall|mid: S| #[trigger]
        render_chain(templates, one.drop_last(), from, mid) <==> from == mid by {
        assert(one.drop_last().len() == 0);
    }
    if render_step(templates, render, from, to) {
        assert(render_chain(templates, one.drop_last(), from, from));
        assert(render_step(templates, one.last(), from, to));
    }
    if render_chain(templates, one, from, to) {
        let mid = choose|mid: S|
            {
                &&& render_chain(templates, one.drop_last(), from, mid)
                &&& #[trigger] render_step(templates, one.last(), mid, to)
            };
        assert(render_chain(templates, one.drop_last(), from, mid));
    }
}

/// What is renderable within some levels is renderable within more, and the same is
/// rendered for it.
proof fn block_within_more<T, D>(
    compilation: Compilation<T, D>,
    id: AsyncDependenciesBlockIdentifier,
    depth: nat,
    more: nat,
)
    requires
        compilation.block_renderable_within(id, depth),
        depth <= more,
    ensures
        compilation.block_renderable_within(id, more),
        compilation.block_renders_within(id, more) == compilation.block_renders_within(id, depth),
    decreases depth,
{
    let ids = compilation.block(id).blocks@;
    assert forall|i: int| 0 <= i < ids.len() implies compilation.block_renderable_within(
        #[trigger] ids[i],
        (more - 1) as nat,
    ) by {
        block_within_more(compilation, ids[i], (depth - 1) as nat, (more - 1) as nat);
    }
    blocks_within_more(compilation, ids, (depth - 1) as nat, (more - 1) as nat);
}

/// The same, of blocks one after the other.
proof fn blocks_within_more<T, D>(
    compilation: Compilation<T, D>,
    ids: Seq<AsyncDependenciesBlockIdentifier>,
    depth: nat,
    more: nat,
)
    requires
        forall|i: int|
            0 <= i < ids.len() ==> compilation.block_renderable_within(#[trigger] ids[i], depth),
        depth <= more,
    ensures
        compilation.blocks_renders_within(ids, more) == compilation.blocks_renders_within(
            ids,
            depth,
        ),
    decreases depth, ids.len(),
{
    if ids.len() > 0 {
        assert forall|i: int| 0 <= i < ids.drop_last().len() implies
            compilation.block_renderable_within(#[trigger] ids.drop_last()[i], depth) by {
            assert(ids.drop_last()[i] == ids[i]);
        }
        blocks_within_more(compilation, ids.drop_last(), depth, more);
        let last = ids.last();
        assert(ids[ids.len() - 1] == last);
        let inner = compilation.block(last).blocks@;
        blocks_within_more(compilation, inner, (depth - 1) as nat, (more - 1) as nat);
        assert(compilation.block_renders_within(last, more)
            == compilation.block_renders_within(last, depth));
    }
}

/// A renderable block has a least number of levels.
proof fn block_depth_least<T, D>(
    compilation: Compilation<T, D>,
    id: AsyncDependenciesBlockIdentifier,
    depth: nat,
)
    requires
        compilation.block_renderable_within(id, depth),
    ensures
        compilation.block_renderable_within(id, compilation.block_depth(id)),
        compilation.block_depth(id) <= depth,
    decreases depth,
{
    reveal(Compilation::block_depth);
    if exists|less: nat| less < depth && compilation.block_renderable_within(id, less) {
        let less = choose|less: nat|
            less < depth && compilation.block_renderable_within(id, less);
        block_depth_least(compilation, id, less);
    } else {
        assert(forall|less: nat| less < depth ==> !compilation.block_renderable_within(id, less));
        let least = compilation.block_depth(id);
        if depth < least {
            assert(!compilation.block_renderable_within(id, depth));
        }
    }
}

/// A block in a renderable block is renderable and has fewer levels.
pub(crate) proof fn nested_block_renderable<T, D>(
    compilation: Compilation<T, D>,
    id: AsyncDependenciesBlockIdentifier,
    i: int,
)
    requires
        compilation.block_renderable(id),
        0 <= i < compilation.block(id).blocks@.len(),
    ensures
        compilation.block_renderable(compilation.block(id).blocks@[i]),
        compilation.block_depth(compilation.block(id).blocks@[i]) < compilation.block_depth(id),
{
    let depth = choose|depth: nat| compilation.block_renderable_within(id, depth);
    block_depth_least(compilation, id, depth);
    let nested = compilation.block(id).blocks@[i];
    block_depth_least(compilation, nested, (compilation.block_depth(id) - 1) as nat);
}

/// What is rendered for blocks does not depend on how many levels are allowed, as
/// long as they are enough.
proof fn blocks_renders_enough<T, D>(
    compilation: Compilation<T, D>,
    ids: Seq<AsyncDependenciesBlockIdentifier>,
    depth: nat,
)
    requires
        forall|i: int|
            0 <= i < ids.len() ==> compilation.block_renderable_within(#[trigger] ids[i], depth),
    ensures
        compilation.blocks_renders_within(ids, depth) == compilation.blocks_renders(ids),
    decreases ids.len(),
{
    if ids.len() > 0 {
        assert forall|i: int| 0 <= i < ids.drop_last().len() implies
            compilation.block_renderable_within(#[trigger] ids.drop_last()[i], depth) by {
            assert(ids.drop_last()[i] == ids[i]);
        }
        blocks_renders_enough(compilation, ids.drop_last(), depth);
        let last = ids.last();
        assert(ids[ids.len() - 1] == last);
        block_depth_least(compilation, last, depth);
        block_within_more(compilation, last, compilation.block_depth(last), depth);
    }
}

/// For a renderable block, its dependencies are rendered in order, and after them
/// the blocks in it, each wholly before the next.
pub proof fn block_renders_dependencies_first<T, D>(
    compilation: Compilation<T, D>,
    id: AsyncDependenciesBlockIdentifier,
)
    requires
        compilation.block_renderable(id),
    ensures
        compilation.block_renders(id) == compilation.dependencies_renders(
            compilation.block(id).dependencies@,
        ) + compilation.blocks_renders(compilation.block(id).blocks@),
{
    let some = choose|depth: nat| compilation.block_renderable_within(id, depth);
    block_depth_least(compilation, id, some);
    let depth = compilation.block_depth(id);
    blocks_renders_enough(compilation, compilation.block(id).blocks@, (depth - 1) as nat);
}

/// In a block with more than one level, some block is just one level less deep.
proof fn some_nested_block_one_less<T, D>(
    compilation: Compilation<T, D>,
    id: AsyncDependenciesBlockIdentifier,
) -> (i: int)
    requires
        compilation.block_renderable(id),
        compilation.block_depth(id) != 1,
    ensures
        0 <= i < compilation.block(id).blocks@.len(),
        compilation.block_depth(compilation.block(id).blocks@[i]) == compilation.block_depth(id)
            - 1,
{
    let some = choose|depth: nat| compilation.block_renderable_within(id, depth);
    block_depth_least(compilation, id, some);
    let depth = compilation.block_depth(id);
    let ids = compilation.block(id).blocks@;
    if forall|i: int|
        0 <= i < ids.len() ==> compilation.block_depth(#[trigger] ids[i]) != depth - 1 {
        assert forall|i: int| 0 <= i < ids.len() implies compilation.block_renderable_within(
            #[trigger] ids[i],
            (depth - 2) as nat,
        ) by {
            nested_block_renderable(compilation, id, i);
            block_depth_least(compilation, ids[i], (depth - 1) as nat);
            let nested = compilation.block_depth(ids[i]);
            block_within_more(compilation, ids[i], nested, (depth - 2) as nat);
        }
        assert(compilation.block_renderable_within(id, (depth - 1) as nat));
        block_depth_least(compilation, id, (depth - 1) as nat);
    }
    choose|i: int|
        0 <= i < ids.len() && compilation.block_depth(#[trigger] ids[i]) == depth - 1
}

/// Blocks of as many different depths as a block has levels are in the graph.
proof fn blocks_of_every_depth<T, D>(
    compilation: Compilation<T, D>,
    id: AsyncDependenciesBlockIdentifier,
) -> (below: Set<AsyncDependenciesBlockIdentifier>)
    requires
        compilation.block_renderable(id),
    ensures
        below.finite(),
        below.subset_of(compilation.module_graph.blocks@.dom()),
        below.len() == compilation.block_depth(id),
        forall|other: AsyncDependenciesBlockIdentifier| #[trigger]
            below.contains(other) ==> compilation.block_depth(other) <= compilation.block_depth(id),
    decreases compilation.block_depth(id),
{
    let some = choose|depth: nat| compilation.block_renderable_within(id, depth);
    block_depth_least(compilation, id, some);
    assert(compilation.module_graph.blocks@.contains_key(id));
    if compilation.block_depth(id) == 1 {
        Set::empty().insert(id)
    } else {
        let i = some_nested_block_one_less(compilation, id);
        nested_block_renderable(compilation, id, i);
        let nested = blocks_of_every_depth(compilation, compilation.block(id).blocks@[i]);
        assert(!nested.contains(id));
        nested.insert(id)
    }
}

/// A renderable block has no more levels than the graph has blocks.
proof fn block_depth_bounded<T, D>(
    compilation: Compilation<T, D>,
    id: AsyncDependenciesBlockIdentifier,
)
    requires
        compilation.block_renderable(id),
        compilation.module_graph.blocks@.dom().finite(),
    ensures
        compilation.block_renderable_within(id, compilation.module_graph.blocks@.dom().len()),
{
    let below = blocks_of_every_depth(compilation, id);
    vstd::set_lib::lemma_len_subset(below, compilation.module_graph.blocks@.dom());
    let some = choose|depth: nat| compilation.block_renderable_within(id, depth);
    block_depth_least(compilation, id, some);
    block_within_more(
        compilation,
        id,
        compilation.block_depth(id),
        compilation.module_graph.blocks@.dom().len(),
    );
}

impl<T, D> Compilation<T, D> {
    /// Whether a template is registered for what a dependency asks for.
    fn has_template(&self, code_generation: &CodeGenerationDependency<D>) -> (r: bool)
        ensures
            r == self.template_found(*code_generation),
    {
        match code_generation.template_type {
            Some(template_type) => self.get_dependency_template(template_type).is_some(),
            None => false,
        }
    }

    /// Whether dependencies can be rendered.
    fn can_render_dependencies(&self, ids: &Vec<DependencyId>) -> (r: bool)
        ensures
            r == self.dependencies_renderable(ids@),
    {
        broadcast use vstd::std_specs::hash::group_hash_axioms;

        let n: usize = ids.len();
        for i in 0..n
            invariant
                n == ids@.len(),
                forall|j: int| 0 <= j < i ==> self.dependency_renderable(#[trigger] ids@[j]),
        {
            let known = match self.module_graph.dependencies.get(&ids[i]) {
                Some(dependency) => match &dependency.code_generation {
                    Some(code_generation) => self.has_template(code_generation),
                    None => true,
                },
                None => false,
            };
            assert(known == self.dependency_renderable(ids@[i as int]));
            if !known {
                return false;
            }
        }
        true
    }

    /// Whether blocks can be rendered without going deeper than `depth` levels.
    fn can_render_blocks_within(
        &self,
        ids: &Vec<AsyncDependenciesBlockIdentifier>,
        depth: usize,
    ) -> (r: bool)
        ensures
            r == (forall|i: int|
                0 <= i < ids@.len() ==> self.block_renderable_within(
                    #[trigger] ids@[i],
                    depth as nat,
                )),
        decreases depth,
    {
        let n: usize = ids.len();
        for i in 0..n
            invariant
                n == ids@.len(),
                forall|j: int|
                    0 <= j < i ==> self.block_renderable_within(#[trigger] ids@[j], depth as nat),
        {
            let known = if depth == 0 {
                false
            } else {
                match self.module_graph.block_by_id(ids[i]) {
                    Some(block) => self.can_render_dependencies(&block.dependencies)
                        && self.can_render_blocks_within(&block.blocks, depth - 1),
                    None => false,
                }
            };
            assert(known == self.block_renderable_within(ids@[i as int], depth as nat));
            if !known {
                return false;
            }
        }
        true
    }

    /// Whether a module can be rendered.
    pub fn can_render_module(&self, module: &Module<D>) -> (r: bool)
        ensures
            r == self.module_renderable(*module),
    {
        broadcast use vstd::std_specs::hash::group_hash_axioms;

        if !self.can_render_dependencies(&module.dependencies) {
            return false;
        }
        if let Some(dependencies) = &module.presentational_dependencies {
            let n: usize = dependencies.len();
            for i in 0..n
                invariant
                    n == dependencies@.len(),
                    module.presentational_dependencies == Some(*dependencies),
                    forall|j: int|
                        0 <= j < i ==> self.template_found(
                            (#[trigger] dependencies@[j]).code_generation,
                        ),
            {
                if !self.has_template(&dependencies[i].code_generation) {
                    assert(!self.template_found(dependencies@[i as int].code_generation));
                    return false;
                }
            }
        }
        let depth: usize = self.module_graph.blocks.len();
        let renderable = self.can_render_blocks_within(&module.blocks, depth);
        proof {
            let ids = module.blocks@;
            assert forall|i: int| 0 <= i < ids.len() implies (self.block_renderable(
                #[trigger] ids[i],
            ) == self.block_renderable_within(ids[i], depth as nat)) by {
                if self.block_renderable(ids[i]) {
                    block_depth_bounded(*self, ids[i]);
                }
            }
        }
        renderable
    }
}

/// Calls are made one by one, from first to last, each by the template of its type on its
/// dependency and on the state that the one before it left, and each once. The result
/// holds the states on the way.
pub proof fn rendered_in_turn<T: DependencyTemplate<D, S>, D, S>(
    templates: Map<DependencyTemplateType, T>,
    renders: Seq<Render<D>>,
    from: S,
    to: S,
) -> (states: Seq<S>)
    requires
        render_chain(templates, renders, from, to),
    ensures
        states.len() == renders.len() + 1,
        states[0] == from,
        states[renders.len() as int] == to,
        forall|i: int|
            0 <= i < renders.len() ==> call_ensures(
                T::render,
                (
                    &templates[(#[trigger] renders[i]).template_type],
                    &renders[i].dependency,
                    states[i],
                ),
                states[i + 1],
            ),
    decreases renders.len(),
{
    if renders.len() == 0 {
        seq![from]
    } else {
        let less = renders.drop_last();
        let mid = choose|mid: S|
            {
                &&& render_chain(templates, less, from, mid)
                &&& #[trigger] render_step(templates, renders.last(), mid, to)
            };
        let before = rendered_in_turn(templates, less, from, mid);
        let states = before.push(to);
        assert forall|i: int| 0 <= i < renders.len() implies call_ensures(
            T::render,
            (
                &templates[(#[trigger] renders[i]).template_type],
                &renders[i].dependency,
                states[i],
            ),
            states[i + 1],
        ) by {
            if i < less.len() {
                assert(less[i] == renders[i]);
            }
        }
        states
    }
}

/// A dependency asks for one call, of its own template on itself, if it takes part in code
/// generation, and for none otherwise.
pub proof fn dependency_rendered_at_most_once<T, D>(
    compilation: Compilation<T, D>,
    id: DependencyId,
)
    ensures
        ({
            let code_generation = compilation.module_graph.dependencies@[id].code_generation;
            let renders = compilation.dependency_renders(id);
            &&& code_generation is None ==> renders.len() == 0
            &&& code_generation is Some ==> {
                &&& renders.len() == 1
                &&& renders[0].template_type == code_generation->0.template_type->0
                &&& renders[0].dependency == code_generation->0.dependency
            }
        }),
{
}

/// For dependencies, those that take part in code generation are rendered, in their order,
/// each by its own template, and no others. The result says, of each call, at which place
/// its dependency stands.
pub proof fn dependencies_rendered_in_order<T, D>(
    compilation: Compilation<T, D>,
    ids: Seq<DependencyId>,
) -> (places: Seq<int>)
    ensures
        places.len() == compilation.dependencies_renders(ids).len(),
        forall|k: int|
            0 <= k < places.len() ==> {
                let dependency = compilation.module_graph.dependencies@[ids[#[trigger] places[k]]];
                let code_generation = dependency.code_generation;
                &&& 0 <= places[k] < ids.len()
                &&& code_generation is Some
                &&& compilation.dependencies_renders(ids)[k].template_type
                    == code_generation->0.template_type->0
                &&& compilation.dependencies_renders(ids)[k].dependency
                    == code_generation->0.dependency
            },
        forall|k: int, l: int|
            0 <= k < l < places.len() ==> #[trigger] places[k] < #[trigger] places[l],
        forall|i: int|
            0 <= i < ids.len()
                && compilation.module_graph.dependencies@[#[trigger] ids[i]].code_generation
                is Some ==> places.contains(i),
    decreases ids.len(),
{
    if ids.len() == 0 {
        Seq::empty()
    } else {
        let less = ids.drop_last();
        let before = dependencies_rendered_in_order(compilation, less);
        let last = ids.len() - 1;
        let renders = compilation.dependencies_renders(ids);
        let earlier = compilation.dependencies_renders(less);
        let places = if compilation.module_graph.dependencies@[ids[last]].code_generation is Some {
            before.push(last)
        } else {
            before
        };
        assert(places.len() == renders.len());
        assert forall|k: int| 0 <= k < places.len() implies {
            let dependency = compilation.module_graph.dependencies@[ids[#[trigger] places[k]]];
            let code_generation = dependency.code_generation;
            &&& 0 <= places[k] < ids.len()
            &&& code_generation is Some
            &&& renders[k].template_type == code_generation->0.template_type->0
            &&& renders[k].dependency == code_generation->0.dependency
        } by {
            if k < before.len() {
                assert(places[k] == before[k]);
                assert(less[before[k]] == ids[before[k]]);
                assert(renders[k] == earlier[k]);
            }
        }
        assert forall|k: int, l: int| 0 <= k < l < places.len() implies #[trigger] places[k]
            < #[trigger] places[l] by {
            assert(places[k] == before[k]);
            assert(0 <= before[k] < less.len());
        }
        assert forall|i: int|
            0 <= i < ids.len()
                && compilation.module_graph.dependencies@[#[trigger] ids[i]].code_generation
                is Some implies places.contains(i) by {
            if i < last {
                assert(less[i] == ids[i]);
                assert(before.contains(i));
                let k = choose|k: int| 0 <= k < before.len() && before[k] == i;
                assert(places[k] == i);
            } else {
                assert(places[before.len() as int] == i);
            }
        }
        places
    }
}

/// A presentational dependency asks for one call, of its own template on itself, and the
/// calls come in the order of the dependencies.
pub proof fn presentational_dependencies_rendered_in_order<D>(
    dependencies: Seq<PresentationalDependency<D>>,
)
    ensures
        presentational_renders(dependencies).len() == dependencies.len(),
        forall|i: int|
            0 <= i < dependencies.len() ==> {
                let render = presentational_renders(dependencies)[i];
                let code_generation = (#[trigger] dependencies[i]).code_generation;
                &&& render.template_type == code_generation.template_type->0
                &&& render.dependency == code_generation.dependency
            },
{
}

/// What is rendered for a module: first what is rendered for its dependencies, then each
/// presentational dependency, then what is rendered for its blocks. None of the three
/// depends on whether the module has the others.
pub proof fn module_renders_its_parts_in_turn<T, D>(
    compilation: Compilation<T, D>,
    module: Module<D>,
)
    ensures
        ({
            let all = compilation.module_renders(module);
            let first = compilation.dependencies_renders(module.dependencies@);
            let last = compilation.blocks_renders(module.blocks@);
            let between = match module.presentational_dependencies {
                Some(dependencies) => dependencies@.len(),
                None => 0,
            };
            &&& all.len() == first.len() + between + last.len()
            &&& forall|i: int| 0 <= i < first.len() ==> all[i] == #[trigger] first[i]
            &&& module.presentational_dependencies matches Some(dependencies) ==> forall|i: int|
                0 <= i < dependencies@.len() ==> {
                    let code_generation = (#[trigger] dependencies@[i]).code_generation;
                    &&& all[first.len() + i].template_type == code_generation.template_type->0
                    &&& all[first.len() + i].dependency == code_generation.dependency
                }
            &&& forall|i: int|
                0 <= i < last.len() ==> all[first.len() + between + i] == #[trigger] last[i]
        }),
{
}

/// A module without dependencies and blocks is rendered as its presentational
/// dependencies are.
pub proof fn leaf_module_renders_its_presentational_dependencies<T, D>(
    compilation: Compilation<T, D>,
    module: Module<D>,
)
    requires
        module.dependencies@.len() == 0,
        module.blocks@.len() == 0,
        module.presentational_dependencies is Some,
    ensures
        ({
            let all = compilation.module_renders(module);
            let dependencies = module.presentational_dependencies->0@;
            &&& all.len() == dependencies.len()
            &&& forall|i: int|
                0 <= i < all.len() ==> (#[trigger] all[i]).dependency
                    == dependencies[i].code_generation.dependency && all[i].template_type
                    == dependencies[i].code_generation.template_type->0
        }),
{
    let dependencies = module.presentational_dependencies->0@;
    assert(compilation.module_renders(module) =~= presentational_renders(dependencies));
}

/// Rendering blocks that are joined is rendering the first ones and after them the others,
/// and rendering one block alone is rendering that block.
pub proof fn blocks_rendered_in_order<T, D>(
    compilation: Compilation<T, D>,
    first: Seq<AsyncDependenciesBlockIdentifier>,
    second: Seq<AsyncDependenciesBlockIdentifier>,
    id: AsyncDependenciesBlockIdentifier,
)
    ensures
        compilation.blocks_renders(first + second) == compilation.blocks_renders(first)
            + compilation.blocks_renders(second),
        compilation.blocks_renders(seq![id]) == compilation.block_renders(id),
        compilation.blocks_renders(Seq::empty()).len() == 0,
    decreases second.len(),
{
    reveal_with_fuel(Compilation::blocks_renders, 2);
    assert(seq![id].drop_last() =~= Seq::empty());
    assert(compilation.blocks_renders(seq![id]) =~= compilation.block_renders(id));
    if second.len() == 0 {
        assert(first + second =~= first);
        assert(compilation.blocks_renders(first + second) =~= compilation.blocks_renders(first)
            + compilation.blocks_renders(second));
    } else {
        blocks_rendered_in_order(compilation, first, second.drop_last(), id);
        assert((first + second).drop_last() =~= first + second.drop_last());
        assert(compilation.blocks_renders(first + second) =~= compilation.blocks_renders(first)
            + compilation.blocks_renders(second));
    }
}

/// The dependencies of a block are all rendered before anything that is nested in it, and
/// nothing else is rendered for the block.
pub proof fn block_renders_own_dependencies_before_nested<T, D>(
    compilation: Compilation<T, D>,
    id: AsyncDependenciesBlockIdentifier,
)
    requires
        compilation.block_renderable(id),
    ensures
        ({
            let block = compilation.module_graph.blocks@[id];
            let all = compilation.block_renders(id);
            let own = compilation.dependencies_renders(block.dependencies@);
            let nested = compilation.blocks_renders(block.blocks@);
            &&& all.len() == own.len() + nested.len()
            &&& forall|i: int| 0 <= i < own.len() ==> all[i] == #[trigger] own[i]
            &&& forall|i: int|
                0 <= i < nested.len() ==> all[own.len() + i] == #[trigger] nested[i]
        }),
{
    block_renders_dependencies_first(compilation, id);
}

/// A dependency can be rendered if and only if the graph has it and, where it takes part
/// in code generation, it names a type that a template is registered for.
pub proof fn dependency_renderable_iff<T, D>(compilation: Compilation<T, D>, id: DependencyId)
    ensures
        compilation.dependency_renderable(id) <==> {
            let dependencies = compilation.module_graph.dependencies@;
            &&& dependencies.contains_key(id)
            &&& dependencies[id].code_generation is None || {
                let template_type = dependencies[id].code_generation->0.template_type;
                template_type is Some && compilation.dependency_templates@.contains_key(
                    template_type->0,
                )
            }
        },
{
}

/// A block can be rendered if and only if the graph has it, each of its dependencies can,
/// and each block in it can.
pub proof fn block_renderable_iff<T, D>(
    compilation: Compilation<T, D>,
    id: AsyncDependenciesBlockIdentifier,
)
    ensures
        compilation.block_renderable(id) <==> {
            let block = compilation.module_graph.blocks@[id];
            &&& compilation.module_graph.blocks@.contains_key(id)
            &&& forall|i: int|
                0 <= i < block.dependencies@.len() ==> compilation.dependency_renderable(
                    #[trigger] block.dependencies@[i],
                )
            &&& forall|i: int|
                0 <= i < block.blocks@.len() ==> compilation.block_renderable(
                    #[trigger] block.blocks@[i],
                )
        },
{
    let block = compilation.module_graph.blocks@[id];
    if compilation.block_renderable(id) {
        let depth = choose|depth: nat| compilation.block_renderable_within(id, depth);
        assert forall|i: int| 0 <= i < block.blocks@.len() implies compilation.block_renderable(
            #[trigger] block.blocks@[i],
        ) by {
            assert(compilation.block_renderable_within(block.blocks@[i], (depth - 1) as nat));
        }
    } else if compilation.module_graph.blocks@.contains_key(id) && (forall|i: int|
        0 <= i < block.dependencies@.len() ==> compilation.dependency_renderable(
            #[trigger] block.dependencies@[i],
        )) && (forall|i: int|
        0 <= i < block.blocks@.len() ==> compilation.block_renderable(
            #[trigger] block.blocks@[i],
        )) {
        let depth = common_depth(compilation, block.blocks@);
        assert(compilation.block(id) == block);
        assert(compilation.dependencies_renderable(block.dependencies@));
        assert(compilation.block_renderable_within(id, depth + 1));
    }
}

/// Some number of levels is enough for all of several blocks.
proof fn common_depth<T, D>(
    compilation: Compilation<T, D>,
    ids: Seq<AsyncDependenciesBlockIdentifier>,
) -> (depth: nat)
    requires
        forall|i: int| 0 <= i < ids.len() ==> compilation.block_renderable(#[trigger] ids[i]),
    ensures
        forall|i: int|
            0 <= i < ids.len() ==> compilation.block_renderable_within(#[trigger] ids[i], depth),
    decreases ids.len(),
{
    if ids.len() == 0 {
        0
    } else {
        let less = ids.drop_last();
        assert forall|i: int| 0 <= i < less.len() implies compilation.block_renderable(
            #[trigger] less[i],
        ) by {
            assert(less[i] == ids[i]);
        }
        let before = common_depth(compilation, less);
        let last = ids[ids.len() - 1];
        let own = choose|depth: nat| compilation.block_renderable_within(last, depth);
        let depth = if before < own {
            own
        } else {
            before
        };
        block_within_more(compilation, last, own, depth);
        assert forall|i: int| 0 <= i < ids.len() implies compilation.block_renderable_within(
            #[trigger] ids[i],
            depth,
        ) by {
            if i < less.len() {
                assert(less[i] == ids[i]);
                block_within_more(compilation, ids[i], before, depth);
            }
        }
        depth
    }
}

/// A block that is nested in itself, however far down, cannot be rendered: of blocks each
/// of which is in the one before it, no two are the same.
pub proof fn renderable_blocks_are_not_nested_in_themselves<T, D>(
    compilation: Compilation<T, D>,
    path: Seq<AsyncDependenciesBlockIdentifier>,
)
    requires
        path.len() > 1,
        forall|k: int|
            0 <= k < path.len() - 1
                ==> compilation.module_graph.blocks@[#[trigger] path[k]].blocks@.contains(
                path[k + 1],
            ),
        path[0] == path[path.len() - 1],
    ensures
        !compilation.block_renderable(path[0]),
{
    if compilation.block_renderable(path[0]) {
        deeper_along_path(compilation, path, path.len() - 1);
    }
}

/// Along a path of nested blocks the number of levels goes down.
proof fn deeper_along_path<T, D>(
    compilation: Compilation<T, D>,
    path: Seq<AsyncDependenciesBlockIdentifier>,
    k: int,
)
    requires
        compilation.block_renderable(path[0]),
        0 < k < path.len(),
        forall|k: int|
            0 <= k < path.len() - 1
                ==> compilation.module_graph.blocks@[#[trigger] path[k]].blocks@.contains(
                path[k + 1],
            ),
    ensures
        compilation.block_renderable(path[k]),
        compilation.block_depth(path[k]) < compilation.block_depth(path[0]),
    decreases k,
{
    if k > 1 {
        deeper_along_path(compilation, path, k - 1);
    }
    let outer = path[k - 1];
    let inner = compilation.block(outer).blocks@;
    assert(inner.contains(path[k - 1 + 1]));
    let i = choose|i: int| 0 <= i < inner.len() && inner[i] == path[k];
    nested_block_renderable(compilation, outer, i);
}

/// A module can be rendered if and only if each of its dependencies, each of its
/// presentational dependencies and each of its blocks can.
pub proof fn module_renderable_iff<T, D>(compilation: Compilation<T, D>, module: Module<D>)
    ensures
        compilation.module_renderable(module) <==> {
            &&& forall|i: int|
                0 <= i < module.dependencies@.len() ==> compilation.dependency_renderable(
                    #[trigger] module.dependencies@[i],
                )
            &&& module.presentational_dependencies matches Some(dependencies) ==> forall|i: int|
                0 <= i < dependencies@.len() ==> {
                    let template_type = (
                    #[trigger] dependencies@[i]).code_generation.template_type;
                    template_type is Some && compilation.dependency_templates@.contains_key(
                        template_type->0,
                    )
                }
            &&& forall|i: int|
                0 <= i < module.blocks@.len() ==> compilation.block_renderable(
                    #[trigger] module.blocks@[i],
                )
        },
{
}

} // verus!
