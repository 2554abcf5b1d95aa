//! The builtin registry: module names mapped to the factories that build them.

use core::marker::PhantomData;
use vstd::hash_map::StringHashMap;
use vstd::prelude::*;

verus! {

/// What the import machinery hands over when it asks for a module: at least
/// the module's name.
#[derive(Debug, PartialEq, Eq)]
pub struct ModuleSpec {
    pub name: String,
}

/// The modules that have already been initialised, by name. The import
/// machinery owns it and fills it; this crate only reads it.
#[verifier::reject_recursive_types(M)]
pub struct ModuleCache<M> {
    modules: StringHashMap<M>,
}

impl<M> View for ModuleCache<M> {
    type V = Map<Seq<char>, M>;

    closed spec fn view(&self) -> Map<Seq<char>, M> {
        self.modules@
    }
}

impl<M> ModuleCache<M> {
    /// A cache that holds no module.
    pub fn new() -> (cache: Self)
        ensures
            cache@ == Map::<Seq<char>, M>::empty(),
    {
        ModuleCache { modules: StringHashMap::new() }
    }

    /// The module cached under `name`, if there is one.
    pub fn get(&self, name: &str) -> (found: Option<&M>)
        ensures
            match found {
                Some(module) => self@.contains_key(name@) && *module == self@[name@],
                None => !self@.contains_key(name@),
            },
    {
        self.modules.get(name)
    }

    /// Caches `module` under `name`, in place of what was cached there.
    pub fn set(&mut self, name: String, module: M)
        ensures
            final(self)@ == old(self)@.insert(name@, module),
    {
        self.modules.insert(name, module);
    }
}

/// Module names mapped to factories. A factory is handed the interpreter
/// context and builds the module; it may be invoked any number of times, with
/// any context.
#[verifier::reject_recursive_types(C)]
#[verifier::reject_recursive_types(M)]
#[verifier::reject_recursive_types(F)]
pub struct BuiltinRegistry<C, M, F: Fn(&C) -> M> {
    factories: StringHashMap<F>,
    signature: PhantomData<(C, M)>,
}

impl<C, M, F: Fn(&C) -> M> View for BuiltinRegistry<C, M, F> {
    type V = Map<Seq<char>, F>;

    closed spec fn view(&self) -> Map<Seq<char>, F> {
        self.factories@
    }
}

impl<C, M, F: Fn(&C) -> M> BuiltinRegistry<C, M, F> {
    #[verifier::type_invariant]
    spec fn inv(self) -> bool {
        forall|name: Seq<char>, ctx: &C|
            self.factories@.contains_key(name) ==> #[trigger] call_requires(
                self.factories@[name],
                (ctx,),
            )
    }

    /// A registry with no builtin module.
    pub fn new() -> (registry: Self)
        ensures
            registry@ == Map::<Seq<char>, F>::empty(),
    {
        BuiltinRegistry { factories: StringHashMap::new(), signature: PhantomData }
    }

    /// Registers `factory` under `name`, in place of what was registered
    /// there. The factory has to accept every context.
    pub fn register(&mut self, name: String, factory: F)
        requires
            forall|ctx: &C| #[trigger] call_requires(factory, (ctx,)),
        ensures
            final(self)@ == old(self)@.insert(name@, factory),
    {
        proof {
            use_type_invariant(&*self);
        }
        let mut factories = StringHashMap::new();
        core::mem::swap(&mut factories, &mut self.factories);
        factories.insert(name, factory);
        self.factories = factories;
    }
}

/// The answer of the registry to a request for a module. That the registry
/// does not own a name is an answer, not a failure: the next finder is asked.
#[derive(Debug, PartialEq, Eq)]
pub enum BuiltinLookup<M> {
    Found(M),
    NotFound,
}

/// Whether `out` is an answer that [`imp_create_builtin`] may give for `name`:
/// a clone of the cached module, else what the registered factory made of
/// `ctx`, else that the name is not owned.
pub open spec fn create_builtin_answer<C, M: Clone, F: Fn(&C) -> M>(
    cache: Map<Seq<char>, M>,
    registry: Map<Seq<char>, F>,
    ctx: &C,
    name: Seq<char>,
    out: BuiltinLookup<M>,
) -> bool {
    if cache.contains_key(name) {
        out matches BuiltinLookup::Found(module) && cloned(cache[name], module)
    } else if registry.contains_key(name) {
        out matches BuiltinLookup::Found(module) && call_ensures(registry[name], (ctx,), module)
    } else {
        out is NotFound
    }
}

/// Whether `name` is the name of a builtin module.
pub fn imp_is_builtin<C, M, F: Fn(&C) -> M>(
    name: &str,
    registry: &BuiltinRegistry<C, M, F>,
) -> (known: bool)
    ensures
        known == registry@.contains_key(name@),
{
    registry.factories.contains_key(name)
}

/// The module that `module_spec` names: the cached one if the cache holds
/// it, else a fresh one from the registered factory, else the answer that the
/// registry does not own the name. The cache is read, never written.
pub fn imp_create_builtin<C, M: Clone, F: Fn(&C) -> M>(
    module_spec: &ModuleSpec,
    cache: &ModuleCache<M>,
    registry: &BuiltinRegistry<C, M, F>,
    ctx: &C,
) -> (out: BuiltinLookup<M>)
    ensures
        create_builtin_answer(cache@, registry@, ctx, module_spec.name@, out),
{
    let name = module_spec.name.as_str();
    match cache.get(name) {
        Some(module) => BuiltinLookup::Found(module.clone()),
        None => match registry.factories.get(name) {
            Some(factory) => {
                proof {
                    use_type_invariant(registry);
                }
                BuiltinLookup::Found(factory(ctx))
            },
            None => BuiltinLookup::NotFound,
        },
    }
}

/// Runs after a builtin module was created and cached. There is nothing to
/// run yet: the status is always 0, success.
pub fn imp_exec_builtin<M>(_module: &M) -> (status: i32)
    ensures
        status == 0,
{
    0
}

/// A registered name stays registered whatever is registered after it, and
/// the name registered last is there.
pub proof fn lemma_registered_stays<F>(
    registry: Map<Seq<char>, F>,
    name: Seq<char>,
    factory: F,
    earlier: Seq<char>,
)
    ensures
        registry.insert(name, factory).contains_key(name),
        registry.contains_key(earlier) ==> registry.insert(name, factory).contains_key(earlier),
{
}

/// For a registered name that the cache does not hold, the answer is a
/// module, and it is one that the registered factory made of the context.
pub proof fn lemma_registered_is_found<C, M: Clone, F: Fn(&C) -> M>(
    cache: Map<Seq<char>, M>,
    registry: Map<Seq<char>, F>,
    ctx: &C,
    name: Seq<char>,
    out: BuiltinLookup<M>,
)
    requires
        registry.contains_key(name),
        !cache.contains_key(name),
        create_builtin_answer(cache, registry, ctx, name, out),
    ensures
        out is Found,
        call_ensures(registry[name], (ctx,), out->Found_0),
{
}

/// For a name that is neither registered nor cached, the answer is that the
/// name is not owned.
pub proof fn lemma_unregistered_is_not_found<C, M: Clone, F: Fn(&C) -> M>(
    cache: Map<Seq<char>, M>,
    registry: Map<Seq<char>, F>,
    ctx: &C,
    name: Seq<char>,
    out: BuiltinLookup<M>,
)
    requires
        !registry.contains_key(name),
        !cache.contains_key(name),
        create_builtin_answer(cache, registry, ctx, name, out),
    ensures
        out is NotFound,
{
}

/// For a cached name the answer is a clone of the cached module, whether or
/// not the name is registered: no factory is consulted.
pub proof fn lemma_cached_is_returned<C, M: Clone, F: Fn(&C) -> M>(
    cache: Map<Seq<char>, M>,
    registry: Map<Seq<char>, F>,
    ctx: &C,
    name: Seq<char>,
    out: BuiltinLookup<M>,
)
    requires
        cache.contains_key(name),
        create_builtin_answer(cache, registry, ctx, name, out),
    ensures
        out is Found,
        cloned(cache[name], out->Found_0),
{
}

} // verus!
