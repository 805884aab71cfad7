use vstd::prelude::*;

use crate::error::StorageError;
use crate::table::KeyedTable;

verus! {

/// An empty map from library directories to their storages.
pub fn init_storage_map<T>() -> (m: KeyedTable<T>)
    ensures
        m@ == Map::<Seq<char>, T>::empty(),
{
    KeyedTable::new()
}

/// The current library directory before any library is chosen: empty.
pub fn init_current_library_dir() -> (dir: String)
    ensures
        dir@ == Seq::<char>::empty(),
{
    String::new()
}

/// Registers `storage` for the library at `library_dir`, replacing an earlier one.
pub fn set_storage<T>(map: &mut KeyedTable<T>, library_dir: String, storage: T)
    ensures
        final(map)@ == old(map)@.insert(library_dir@, storage),
{
    map.insert(library_dir, storage);
}

/// The storage registered for the current library directory.
pub fn get_current_storage<'a, T>(map: &'a KeyedTable<T>, current_library_dir: &str) -> (r: Result<&'a T, StorageError>)
    ensures
        match r {
            Ok(s) => map@.contains_key(current_library_dir@) && *s == map@[current_library_dir@],
            Err(e) => !map@.contains_key(current_library_dir@) && e is NoStorageFound,
        },
{
    match map.get(current_library_dir) {
        Some(s) => Ok(s),
        None => Err(StorageError::NoStorageFound),
    }
}

} // verus!
