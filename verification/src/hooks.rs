//! Hooks that the import machinery calls and that do nothing yet. They keep
//! their place so that behaviour can be added without touching the callers.
//! None of them fails.

use crate::frozen::CodeObject;
use vstd::prelude::*;

verus! {

/// The file suffixes of native extension modules, in the order in which they
/// are tried. Native extensions are not supported: there is none.
pub fn imp_extension_suffixes() -> (suffixes: Vec<String>)
    ensures
        suffixes@ == Seq::<String>::empty(),
{
    Vec::new()
}

/// Will correct the file name recorded in `code` once the code has moved to
/// the given path. For now `code` is left as it is.
pub fn imp_fix_co_filename(code: &mut CodeObject, _path: &str)
    ensures
        *final(code) == *old(code),
{
}

/// Will hash the given source under the given key, to tell a stale cache
/// entry from a fresh one. For now there is no hash.
pub fn imp_source_hash(_key: u64, _source: &[u8]) -> (hash: Option<Vec<u8>>)
    ensures
        hash is None,
{
    None
}

} // verus!
