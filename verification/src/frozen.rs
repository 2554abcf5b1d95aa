//! The frozen store: module names mapped to code objects bundled with the
//! runtime, each with a flag that tells a package from a plain module.

use crate::error::{ImpError, ImpErrorView};
use vstd::hash_map::StringHashMap;
use vstd::prelude::*;

verus! {

/// Compiled code with its metadata.
#[derive(Debug, PartialEq, Eq)]
pub struct CodeObject {
    pub bytecode: Vec<u8>,
    pub obj_name: String,
    pub first_line_number: u32,
    pub source_path: String,
}

/// The mathematical value of a [`CodeObject`].
pub struct CodeObjectView {
    pub bytecode: Seq<u8>,
    pub obj_name: Seq<char>,
    pub first_line_number: u32,
    pub source_path: Seq<char>,
}

impl View for CodeObject {
    type V = CodeObjectView;

    open spec fn view(&self) -> CodeObjectView {
        CodeObjectView {
            bytecode: self.bytecode@,
            obj_name: self.obj_name@,
            first_line_number: self.first_line_number,
            source_path: self.source_path@,
        }
    }
}

impl Clone for CodeObject {
    fn clone(&self) -> (copy: Self)
        ensures
            copy@ == self@,
    {
        CodeObject {
            bytecode: self.bytecode.clone(),
            obj_name: self.obj_name.clone(),
            first_line_number: self.first_line_number,
            source_path: self.source_path.clone(),
        }
    }
}

/// What the store holds under one name.
#[derive(Debug, PartialEq, Eq)]
pub struct FrozenEntry {
    pub code: CodeObject,
    pub is_package: bool,
}

/// The mathematical value of a [`FrozenEntry`].
pub struct FrozenEntryView {
    pub code: CodeObjectView,
    pub is_package: bool,
}

impl View for FrozenEntry {
    type V = FrozenEntryView;

    open spec fn view(&self) -> FrozenEntryView {
        FrozenEntryView { code: self.code@, is_package: self.is_package }
    }
}

/// The source path under which a frozen module shows in diagnostics.
pub open spec fn frozen_source_path(name: Seq<char>) -> Seq<char> {
    "frozen "@ + name
}

/// The code object handed out for the frozen module `name`: the stored one,
/// but for its source path.
pub open spec fn frozen_copy(stored: CodeObjectView, name: Seq<char>) -> CodeObjectView {
    CodeObjectView { source_path: frozen_source_path(name), ..stored }
}

/// Module names mapped to frozen entries. It is filled while the runtime
/// starts and only read afterwards.
pub struct FrozenStore {
    entries: StringHashMap<FrozenEntry>,
}

impl View for FrozenStore {
    type V = Map<Seq<char>, FrozenEntryView>;

    closed spec fn view(&self) -> Map<Seq<char>, FrozenEntryView> {
        self.entries@.map_values(|entry: FrozenEntry| entry@)
    }
}

impl FrozenStore {
    /// A store with no frozen module.
    pub fn new() -> (store: Self)
        ensures
            store@ == Map::<Seq<char>, FrozenEntryView>::empty(),
    {
        let store = FrozenStore { entries: StringHashMap::new() };
        assert(store@ =~= Map::<Seq<char>, FrozenEntryView>::empty());
        store
    }

    /// Registers `code` under `name`, in place of what was registered there.
    pub fn register(&mut self, name: String, code: CodeObject, is_package: bool)
        ensures
            final(self)@ == old(self)@.insert(
                name@,
                FrozenEntryView { code: code@, is_package },
            ),
    {
        let ghost added = FrozenEntryView { code: code@, is_package };
        self.entries.insert(name, FrozenEntry { code, is_package });
        assert(self@ =~= old(self)@.insert(name@, added));
    }

    /// What the store holds under `name`, as it was registered.
    pub fn get(&self, name: &str) -> (found: Option<&FrozenEntry>)
        ensures
            match found {
                Some(entry) => self@.contains_key(name@) && entry@ == self@[name@],
                None => !self@.contains_key(name@),
            },
    {
        self.entries.get(name)
    }
}

/// Whether `name` is the name of a frozen module.
pub fn imp_is_frozen(name: &str, store: &FrozenStore) -> (known: bool)
    ensures
        known == store@.contains_key(name@),
{
    store.entries.contains_key(name)
}

/// A copy of the code object stored under `name`, labelled with the source
/// path of a frozen module. The store keeps its own copy as it was.
pub fn imp_get_frozen_object(name: &str, store: &FrozenStore) -> (res: Result<CodeObject, ImpError>)
    ensures
        match res {
            Ok(code) => store@.contains_key(name@) && code@ == frozen_copy(
                store@[name@].code,
                name@,
            ),
            Err(e) => !store@.contains_key(name@) && e@ == (ImpErrorView::ImportLookup {
                name: name@,
            }),
        },
{
    match store.entries.get(name) {
        Some(entry) => {
            let mut code = entry.code.clone();
            code.source_path = "frozen ".to_owned().concat(name);
            Ok(code)
        },
        None => Err(ImpError::import_lookup(name)),
    }
}

/// Whether the frozen module `name` is a package.
pub fn imp_is_frozen_package(name: &str, store: &FrozenStore) -> (res: Result<bool, ImpError>)
    ensures
        match res {
            Ok(flag) => store@.contains_key(name@) && flag == store@[name@].is_package,
            Err(e) => !store@.contains_key(name@) && e@ == (ImpErrorView::ImportLookup {
                name: name@,
            }),
        },
{
    match store.entries.get(name) {
        Some(entry) => Ok(entry.is_package),
        None => Err(ImpError::import_lookup(name)),
    }
}

/// Initialises the frozen module `name`. The store answers whether the name
/// is frozen; decoding, running and caching the module is the work of
/// `import_frozen`, whose result is handed back as it came.
pub fn imp_init_frozen<C, R, P: FnOnce(&C, &str) -> R>(
    name: &str,
    store: &FrozenStore,
    ctx: &C,
    import_frozen: P,
) -> (res: Result<R, ImpError>)
    requires
        store@.contains_key(name@) ==> call_requires(import_frozen, (ctx, name)),
    ensures
        match res {
            Ok(outcome) => store@.contains_key(name@) && call_ensures(
                import_frozen,
                (ctx, name),
                outcome,
            ),
            Err(e) => !store@.contains_key(name@) && e@ == (ImpErrorView::ImportLookup {
                name: name@,
            }),
        },
{
    if store.entries.contains_key(name) {
        Ok(import_frozen(ctx, name))
    } else {
        Err(ImpError::import_lookup(name))
    }
}

/// A frozen module is a package exactly if it was registered as one, and a
/// registration leaves every other name as it was.
pub proof fn lemma_registered_entry(
    store: Map<Seq<char>, FrozenEntryView>,
    name: Seq<char>,
    entry: FrozenEntryView,
    other: Seq<char>,
)
    requires
        other != name,
    ensures
        store.insert(name, entry).contains_key(name),
        store.insert(name, entry)[name].is_package == entry.is_package,
        store.insert(name, entry)[name].code == entry.code,
        store.insert(name, entry).contains_key(other) == store.contains_key(other),
        store.contains_key(other) ==> store.insert(name, entry)[other] == store[other],
{
}

/// The copy handed out differs from the stored code object in its source
/// path at most, and its source path does not depend on the stored one: to
/// label a copy again under the same name changes nothing.
pub proof fn lemma_frozen_copy(stored: CodeObjectView, name: Seq<char>)
    ensures
        frozen_copy(stored, name).source_path == frozen_source_path(name),
        frozen_copy(stored, name).bytecode == stored.bytecode,
        frozen_copy(stored, name).obj_name == stored.obj_name,
        frozen_copy(stored, name).first_line_number == stored.first_line_number,
        frozen_copy(frozen_copy(stored, name), name) == frozen_copy(stored, name),
{
}

/// The source path of a frozen module ends in the module's name, and tells
/// two modules apart.
pub proof fn lemma_frozen_source_path(name: Seq<char>, other: Seq<char>)
    ensures
        frozen_source_path(name).len() == "frozen "@.len() + name.len(),
        frozen_source_path(name).skip("frozen "@.len() as int) == name,
        frozen_source_path(name) == frozen_source_path(other) ==> name == other,
{
    let start = "frozen "@.len() as int;
    assert(frozen_source_path(name).skip(start) == name);
    assert(frozen_source_path(other).skip(start) == other);
}

} // verus!
