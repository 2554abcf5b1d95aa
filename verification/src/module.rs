//! The `_imp` module as script code sees it: a name and the functions that it
//! exports.

use vstd::prelude::*;

verus! {

/// The operations that the `_imp` module exports.
#[derive(Clone, Copy, Debug, PartialEq, Eq)]
pub enum ImpFunction {
    ExtensionSuffixes,
    AcquireLock,
    ReleaseLock,
    LockHeld,
    IsBuiltin,
    IsFrozen,
    CreateBuiltin,
    ExecBuiltin,
    GetFrozenObject,
    InitFrozen,
    IsFrozenPackage,
    FixCoFilename,
    SourceHash,
}

/// The name under which script code finds an operation.
pub open spec fn exported_name(function: ImpFunction) -> Seq<char> {
    match function {
        ImpFunction::ExtensionSuffixes => "extension_suffixes"@,
        ImpFunction::AcquireLock => "acquire_lock"@,
        ImpFunction::ReleaseLock => "release_lock"@,
        ImpFunction::LockHeld => "lock_held"@,
        ImpFunction::IsBuiltin => "is_builtin"@,
        ImpFunction::IsFrozen => "is_frozen"@,
        ImpFunction::CreateBuiltin => "create_builtin"@,
        ImpFunction::ExecBuiltin => "exec_builtin"@,
        ImpFunction::GetFrozenObject => "get_frozen_object"@,
        ImpFunction::InitFrozen => "init_frozen"@,
        ImpFunction::IsFrozenPackage => "is_frozen_package"@,
        ImpFunction::FixCoFilename => "_fix_co_filename"@,
        ImpFunction::SourceHash => "source_hash"@,
    }
}

/// The exported operations, in the order in which the module lists them.
pub open spec fn imp_functions() -> Seq<ImpFunction> {
    seq![
        ImpFunction::ExtensionSuffixes,
        ImpFunction::AcquireLock,
        ImpFunction::ReleaseLock,
        ImpFunction::LockHeld,
        ImpFunction::IsBuiltin,
        ImpFunction::IsFrozen,
        ImpFunction::CreateBuiltin,
        ImpFunction::ExecBuiltin,
        ImpFunction::GetFrozenObject,
        ImpFunction::InitFrozen,
        ImpFunction::IsFrozenPackage,
        ImpFunction::FixCoFilename,
        ImpFunction::SourceHash,
    ]
}

/// The place of an operation in the list.
pub open spec fn position(function: ImpFunction) -> int {
    match function {
        ImpFunction::ExtensionSuffixes => 0,
        ImpFunction::AcquireLock => 1,
        ImpFunction::ReleaseLock => 2,
        ImpFunction::LockHeld => 3,
        ImpFunction::IsBuiltin => 4,
        ImpFunction::IsFrozen => 5,
        ImpFunction::CreateBuiltin => 6,
        ImpFunction::ExecBuiltin => 7,
        ImpFunction::GetFrozenObject => 8,
        ImpFunction::InitFrozen => 9,
        ImpFunction::IsFrozenPackage => 10,
        ImpFunction::FixCoFilename => 11,
        ImpFunction::SourceHash => 12,
    }
}

impl ImpFunction {
    /// The name under which script code finds this operation.
    pub fn name(self) -> (name: &'static str)
        ensures
            name@ == exported_name(self),
    {
        match self {
            ImpFunction::ExtensionSuffixes => "extension_suffixes",
            ImpFunction::AcquireLock => "acquire_lock",
            ImpFunction::ReleaseLock => "release_lock",
            ImpFunction::LockHeld => "lock_held",
            ImpFunction::IsBuiltin => "is_builtin",
            ImpFunction::IsFrozen => "is_frozen",
            ImpFunction::CreateBuiltin => "create_builtin",
            ImpFunction::ExecBuiltin => "exec_builtin",
            ImpFunction::GetFrozenObject => "get_frozen_object",
            ImpFunction::InitFrozen => "init_frozen",
            ImpFunction::IsFrozenPackage => "is_frozen_package",
            ImpFunction::FixCoFilename => "_fix_co_filename",
            ImpFunction::SourceHash => "source_hash",
        }
    }

    /// The exported operations, in the order in which the module lists them.
    pub fn all() -> (functions: Vec<ImpFunction>)
        ensures
            functions@ == imp_functions(),
    {
        let mut functions = Vec::new();
        functions.push(ImpFunction::ExtensionSuffixes);
        functions.push(ImpFunction::AcquireLock);
        functions.push(ImpFunction::ReleaseLock);
        functions.push(ImpFunction::LockHeld);
        functions.push(ImpFunction::IsBuiltin);
        functions.push(ImpFunction::IsFrozen);
        functions.push(ImpFunction::CreateBuiltin);
        functions.push(ImpFunction::ExecBuiltin);
        functions.push(ImpFunction::GetFrozenObject);
        functions.push(ImpFunction::InitFrozen);
        functions.push(ImpFunction::IsFrozenPackage);
        functions.push(ImpFunction::FixCoFilename);
        functions.push(ImpFunction::SourceHash);
        assert(functions@ =~= imp_functions());
        functions
    }
}

/// One function of a module: the name that script code uses, and the
/// operation behind it.
#[derive(Debug, PartialEq, Eq)]
pub struct ModuleFunction {
    pub name: String,
    pub function: ImpFunction,
}

impl View for ModuleFunction {
    type V = (Seq<char>, ImpFunction);

    open spec fn view(&self) -> (Seq<char>, ImpFunction) {
        (self.name@, self.function)
    }
}

impl Clone for ModuleFunction {
    fn clone(&self) -> (copy: Self)
        ensures
            copy@ == self@,
    {
        ModuleFunction { name: self.name.clone(), function: self.function }
    }
}

/// A module as the object model is to build it.
#[derive(Debug, PartialEq, Eq)]
pub struct ModuleDef {
    pub name: String,
    pub functions: Vec<ModuleFunction>,
}

/// The mathematical value of a [`ModuleDef`].
pub struct ModuleDefView {
    pub name: Seq<char>,
    pub functions: Seq<(Seq<char>, ImpFunction)>,
}

impl View for ModuleDef {
    type V = ModuleDefView;

    open spec fn view(&self) -> ModuleDefView {
        ModuleDefView {
            name: self.name@,
            functions: self.functions@.map_values(|f: ModuleFunction| f@),
        }
    }
}

impl Clone for ModuleDef {
    fn clone(&self) -> (copy: Self)
        ensures
            copy@ == self@,
    {
        let copy = ModuleDef { name: self.name.clone(), functions: self.functions.clone() };
        assert(copy@.functions =~= self@.functions);
        copy
    }
}

/// Whether `at` is the first place among `functions` that holds `name`.
pub open spec fn first_named(
    functions: Seq<(Seq<char>, ImpFunction)>,
    name: Seq<char>,
    at: int,
) -> bool {
    &&& 0 <= at < functions.len()
    &&& functions[at].0 == name
    &&& forall|j: int| 0 <= j < at ==> (#[trigger] functions[j]).0 != name
}

/// The operation listed under `name`: where a name is listed twice, the
/// first one counts.
pub open spec fn exported(functions: Seq<(Seq<char>, ImpFunction)>, name: Seq<char>) -> Option<
    ImpFunction,
> {
    if exists|at: int| first_named(functions, name, at) {
        Some(functions[choose|at: int| first_named(functions, name, at)].1)
    } else {
        None
    }
}

/// A name has one first place at most.
pub proof fn lemma_first_named_is_unique(
    functions: Seq<(Seq<char>, ImpFunction)>,
    name: Seq<char>,
    at: int,
)
    requires
        first_named(functions, name, at),
    ensures
        exported(functions, name) == Some(functions[at].1),
{
    let chosen = choose|at: int| first_named(functions, name, at);
    assert(first_named(functions, name, chosen));
    if chosen < at {
        assert(functions[chosen].0 != name);
    }
    if at < chosen {
        assert(functions[at].0 != name);
    }
}

impl ModuleDef {
    /// The operation that the module exports under `name`, if there is one.
    pub fn function(&self, name: &str) -> (found: Option<ImpFunction>)
        ensures
            found == exported(self@.functions, name@),
    {
        let wanted = name.to_owned();
        let mut i: usize = 0;
        while i < self.functions.len()
            invariant
                i <= self.functions.len(),
                wanted@ == name@,
                forall|j: int| 0 <= j < i ==> (#[trigger] self@.functions[j]).0 != name@,
            decreases self.functions.len() - i,
        {
            if self.functions[i].name == wanted {
                proof {
                    lemma_first_named_is_unique(self@.functions, name@, i as int);
                }
                return Some(self.functions[i].function);
            }
            i += 1;
        }
        assert forall|at: int| !first_named(self@.functions, name@, at) by {
            if 0 <= at < self@.functions.len() {
                assert(self@.functions[at].0 != name@);
            }
        }
        None
    }
}

/// The `_imp` module: every operation, in order, under its exported name.
pub open spec fn imp_module() -> ModuleDefView {
    ModuleDefView {
        name: "_imp"@,
        functions: imp_functions().map_values(|f: ImpFunction| (exported_name(f), f)),
    }
}

/// Builds the `_imp` module. The context is not consulted: the parameter
/// gives this function the shape of a builtin factory, so that it can be
/// registered under the module's name.
pub fn make_module<C>(_ctx: &C) -> (module: ModuleDef)
    ensures
        module@ == imp_module(),
{
    let order = ImpFunction::all();
    let mut functions: Vec<ModuleFunction> = Vec::new();
    let mut i: usize = 0;
    while i < order.len()
        invariant
            i <= order.len(),
            functions@.len() == i,
            forall|j: int|
                0 <= j < i ==> (#[trigger] functions@[j])@ == (exported_name(order@[j]), order@[j]),
        decreases order.len() - i,
    {
        let function = order[i];
        functions.push(ModuleFunction { name: function.name().to_owned(), function });
        i += 1;
    }
    let module = ModuleDef { name: "_imp".to_owned(), functions };
    assert(module@.functions =~= imp_module().functions);
    module
}

/// The length and the first character of an exported name: enough to tell
/// the names apart.
spec fn name_mark(function: ImpFunction) -> (nat, char) {
    match function {
        ImpFunction::ExtensionSuffixes => (18, 'e'),
        ImpFunction::AcquireLock => (12, 'a'),
        ImpFunction::ReleaseLock => (12, 'r'),
        ImpFunction::LockHeld => (9, 'l'),
        ImpFunction::IsBuiltin => (10, 'i'),
        ImpFunction::IsFrozen => (9, 'i'),
        ImpFunction::CreateBuiltin => (14, 'c'),
        ImpFunction::ExecBuiltin => (12, 'e'),
        ImpFunction::GetFrozenObject => (17, 'g'),
        ImpFunction::InitFrozen => (11, 'i'),
        ImpFunction::IsFrozenPackage => (17, 'i'),
        ImpFunction::FixCoFilename => (16, '_'),
        ImpFunction::SourceHash => (11, 's'),
    }
}

proof fn lemma_name_mark(function: ImpFunction)
    ensures
        exported_name(function).len() == name_mark(function).0,
        exported_name(function)[0] == name_mark(function).1,
{
    match function {
        ImpFunction::ExtensionSuffixes => reveal_strlit("extension_suffixes"),
        ImpFunction::AcquireLock => reveal_strlit("acquire_lock"),
        ImpFunction::ReleaseLock => reveal_strlit("release_lock"),
        ImpFunction::LockHeld => reveal_strlit("lock_held"),
        ImpFunction::IsBuiltin => reveal_strlit("is_builtin"),
        ImpFunction::IsFrozen => reveal_strlit("is_frozen"),
        ImpFunction::CreateBuiltin => reveal_strlit("create_builtin"),
        ImpFunction::ExecBuiltin => reveal_strlit("exec_builtin"),
        ImpFunction::GetFrozenObject => reveal_strlit("get_frozen_object"),
        ImpFunction::InitFrozen => reveal_strlit("init_frozen"),
        ImpFunction::IsFrozenPackage => reveal_strlit("is_frozen_package"),
        ImpFunction::FixCoFilename => reveal_strlit("_fix_co_filename"),
        ImpFunction::SourceHash => reveal_strlit("source_hash"),
    }
}

/// No two operations share an exported name.
pub proof fn lemma_exported_names_differ(f: ImpFunction, g: ImpFunction)
    requires
        exported_name(f) == exported_name(g),
    ensures
        f == g,
{
    lemma_name_mark(f);
    lemma_name_mark(g);
}

/// Every operation is found in the `_imp` module under its exported name,
/// at its place in the list, and nothing else is listed under that name.
pub proof fn lemma_every_function_is_exported(f: ImpFunction)
    ensures
        0 <= position(f) < imp_functions().len(),
        imp_functions()[position(f)] == f,
        exported(imp_module().functions, exported_name(f)) == Some(f),
        forall|at: int|
            0 <= at < imp_module().functions.len() && (#[trigger] imp_module().functions[at]).0
                == exported_name(f) ==> at == position(f),
{
    let functions = imp_module().functions;
    assert forall|at: int| 0 <= at < functions.len() && (#[trigger] functions[at]).0
        == exported_name(f) implies at == position(f) by {
        lemma_exported_names_differ(imp_functions()[at], f);
    }
    assert(functions[position(f)] == (exported_name(f), f));
    lemma_first_named_is_unique(functions, exported_name(f), position(f));
}

} // verus!
