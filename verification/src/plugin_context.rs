//! What a plugin of the compiler can register and reach when it is applied.

use std::collections::HashMap;

use vstd::prelude::*;

use crate::module_type::{module_type_key, module_type_keys_distinct, ModuleType};
use crate::options::CompilerOptions;

verus! {

/// What a table keyed by the numbers of module types holds for each module type.
pub open spec fn by_module_type<B>(table: Map<u64, B>) -> Map<ModuleType, B> {
    Map::new(
        |module_type: ModuleType| table.contains_key(module_type_key(module_type)),
        |module_type: ModuleType| table[module_type_key(module_type)],
    )
}

/// The context that a plugin is applied to. `P` and `G` are the types of the builders
/// of parsers and of generators, the others those of the hooks that a plugin taps.
pub struct ApplyContext<
    'c,
    P,
    G,
    CompilerHooks,
    CompilationHooks,
    NormalModuleFactoryHooks,
    ContextModuleFactoryHooks,
    NormalModuleHooks,
    ConcatenatedModuleHooks,
> {
    pub registered_parser_builder: &'c mut HashMap<u64, P>,
    pub registered_generator_builder: &'c mut HashMap<u64, G>,
    pub compiler_hooks: &'c mut CompilerHooks,
    pub compilation_hooks: &'c mut CompilationHooks,
    pub normal_module_factory_hooks: &'c mut NormalModuleFactoryHooks,
    pub context_module_factory_hooks: &'c mut ContextModuleFactoryHooks,
    pub normal_module_hooks: &'c mut NormalModuleHooks,
    pub concatenated_module_hooks: &'c mut ConcatenatedModuleHooks,
    pub compiler_options: &'c CompilerOptions,
}

impl<
    'c,
    P,
    G,
    CompilerHooks,
    CompilationHooks,
    NormalModuleFactoryHooks,
    ContextModuleFactoryHooks,
    NormalModuleHooks,
    ConcatenatedModuleHooks,
> ApplyContext<
    'c,
    P,
    G,
    CompilerHooks,
    CompilationHooks,
    NormalModuleFactoryHooks,
    ContextModuleFactoryHooks,
    NormalModuleHooks,
    ConcatenatedModuleHooks,
> {
    /// The parser builder of each module type that has one.
    pub open spec fn parser_builders(self) -> Map<ModuleType, P> {
        by_module_type(self.registered_parser_builder@)
    }

    /// The generator builder of each module type that has one.
    pub open spec fn generator_builders(self) -> Map<ModuleType, G> {
        by_module_type(self.registered_generator_builder@)
    }

    /// Registers the builder of the parsers of a module type, in place of the one that
    /// was registered for it before. The context still borrows the same tables.
    pub fn register_parser_builder(&mut self, module_type: ModuleType, parser_builder: P)
        ensures
            final(self).registered_parser_builder@ == old(self).registered_parser_builder@.insert(
                module_type_key(module_type),
                parser_builder,
            ),
            final(self).parser_builders() == old(self).parser_builders().insert(
                module_type,
                parser_builder,
            ),
            *final(final(self).registered_parser_builder)
                == *final(old(self).registered_parser_builder),
            final(self).registered_generator_builder == old(self).registered_generator_builder,
            final(self).compiler_hooks == old(self).compiler_hooks,
            final(self).compilation_hooks == old(self).compilation_hooks,
            final(self).normal_module_factory_hooks == old(self).normal_module_factory_hooks,
            final(self).context_module_factory_hooks == old(self).context_module_factory_hooks,
            final(self).normal_module_hooks == old(self).normal_module_hooks,
            final(self).concatenated_module_hooks == old(self).concatenated_module_hooks,
            final(self).compiler_options == old(self).compiler_options,
    {
        broadcast use vstd::std_specs::hash::group_hash_axioms;

        let ghost before = self.registered_parser_builder@;
        self.registered_parser_builder.insert(module_type.key(), parser_builder);
        proof {
            registered(before, module_type, parser_builder);
        }
    }

    /// Registers the builder of the generators of a module type, in place of the one
    /// that was registered for it before. The context still borrows the same tables.
    pub fn register_generator_builder(&mut self, module_type: ModuleType, generator_builder: G)
        ensures
            final(self).registered_generator_builder@ == old(self).registered_generator_builder@.insert(
                module_type_key(module_type),
                generator_builder,
            ),
            final(self).generator_builders() == old(self).generator_builders().insert(
                module_type,
                generator_builder,
            ),
            *final(final(self).registered_generator_builder)
                == *final(old(self).registered_generator_builder),
            final(self).registered_parser_builder == old(self).registered_parser_builder,
            final(self).compiler_hooks == old(self).compiler_hooks,
            final(self).compilation_hooks == old(self).compilation_hooks,
            final(self).normal_module_factory_hooks == old(self).normal_module_factory_hooks,
            final(self).context_module_factory_hooks == old(self).context_module_factory_hooks,
            final(self).normal_module_hooks == old(self).normal_module_hooks,
            final(self).concatenated_module_hooks == old(self).concatenated_module_hooks,
            final(self).compiler_options == old(self).compiler_options,
    {
        broadcast use vstd::std_specs::hash::group_hash_axioms;

        let ghost before = self.registered_generator_builder@;
        self.registered_generator_builder.insert(module_type.key(), generator_builder);
        proof {
            registered(before, module_type, generator_builder);
        }
    }
}

/// To insert under a module type's number is to insert under the module type.
proof fn registered<B>(table: Map<u64, B>, module_type: ModuleType, builder: B)
    ensures
        by_module_type(table.insert(module_type_key(module_type), builder)) == by_module_type(
            table,
        ).insert(module_type, builder),
{
    assert forall|other: ModuleType| module_type_key(other) == module_type_key(module_type) <==> #[trigger]
        by_module_type(table).insert(module_type, builder).contains_key(other) && other
        == module_type by {
        module_type_keys_distinct(other, module_type);
    }
    assert(by_module_type(table.insert(module_type_key(module_type), builder)) =~= by_module_type(
        table,
    ).insert(module_type, builder));
}

/// Of two builders for one module type the one registered last counts; of builders
/// for two module types both do, in whatever order they were registered.
pub proof fn last_registered_counts<B>(
    builders: Map<ModuleType, B>,
    a: ModuleType,
    first: B,
    b: ModuleType,
    second: B,
)
    ensures
        builders.insert(a, first).insert(b, second)[b] == second,
        a == b ==> builders.insert(a, first).insert(b, second) == builders.insert(b, second),
        a != b ==> builders.insert(a, first).insert(b, second) == builders.insert(
            b,
            second,
        ).insert(a, first),
{
    assert(a == b ==> builders.insert(a, first).insert(b, second) =~= builders.insert(b, second));
    assert(a != b ==> builders.insert(a, first).insert(b, second) =~= builders.insert(
        b,
        second,
    ).insert(a, first));
}

/// A module type has the builder that the table holds under its number, and none if the
/// table holds none there.
pub proof fn builder_stands_under_its_number<B>(table: Map<u64, B>, module_type: ModuleType)
    ensures
        by_module_type(table).contains_key(module_type) <==> table.contains_key(
            module_type_key(module_type),
        ),
        table.contains_key(module_type_key(module_type)) ==> by_module_type(table)[module_type]
            == table[module_type_key(module_type)],
{
}

/// Registering a builder for one module type leaves the builders of all others alone.
pub proof fn other_builders_stay<B>(
    table: Map<u64, B>,
    module_type: ModuleType,
    builder: B,
    other: ModuleType,
)
    requires
        other != module_type,
    ensures
        ({
            let after = table.insert(module_type_key(module_type), builder);
            &&& by_module_type(after)[module_type] == builder
            &&& by_module_type(after).contains_key(other) == by_module_type(table).contains_key(
                other,
            )
            &&& by_module_type(table).contains_key(other) ==> by_module_type(after)[other]
                == by_module_type(table)[other]
        }),
{
    module_type_keys_distinct(module_type, other);
}

} // verus!
