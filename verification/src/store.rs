use vstd::prelude::*;

use crate::error::{store_error, StoreError};
use crate::json::{decode_string_map, encode_string_map, json_error_message, json_string_map};
use crate::table::KeyedTable;

verus! {

/// A write to a store: a value put under a key, or a key deleted.
pub enum StoreCall {
    Insert(Seq<char>, Seq<char>),
    Delete(Seq<char>),
}

/// The map after one write.
pub open spec fn apply_call(m: Map<Seq<char>, Seq<char>>, c: StoreCall) -> Map<Seq<char>, Seq<char>> {
    match c {
        StoreCall::Insert(k, v) => m.insert(k, v),
        StoreCall::Delete(k) => m.remove(k),
    }
}

/// The map after a run of writes, first to last.
pub open spec fn replay(m: Map<Seq<char>, Seq<char>>, calls: Seq<StoreCall>) -> Map<Seq<char>, Seq<char>>
    decreases calls.len(),
{
    if calls.len() == 0 {
        m
    } else {
        apply_call(replay(m, calls.drop_last()), calls.last())
    }
}

/// A key-value store of text settings that a context keeps its state in.
///
/// `entries` is what the store holds and `writes` the writes made through this trait,
/// first to last. Writes always take effect on `entries`; the `Result` they return
/// reports failures that an implementation meets besides that (such as telling
/// observers), and callers may ignore it.
pub trait CtxStore {
    spec fn entries(&self) -> Map<Seq<char>, Seq<char>>;

    spec fn writes(&self) -> Seq<StoreCall>;

    fn insert(&mut self, key: &str, value: &str) -> (r: Result<(), StoreError>)
        ensures
            final(self).writes() == old(self).writes().push(StoreCall::Insert(key@, value@)),
            final(self).entries() == apply_call(old(self).entries(), StoreCall::Insert(key@, value@)),
    ;

    fn get(&self, key: &str) -> (r: Option<String>)
        ensures
            match r {
                Some(v) => self.entries().contains_key(key@) && v@ == self.entries()[key@],
                None => !self.entries().contains_key(key@),
            },
    ;

    fn delete(&mut self, key: &str) -> (r: Result<(), StoreError>)
        ensures
            final(self).writes() == old(self).writes().push(StoreCall::Delete(key@)),
            final(self).entries() == apply_call(old(self).entries(), StoreCall::Delete(key@)),
    ;
}

/// `after` is `before` with one more write, as `insert` and `delete` make it.
pub open spec fn one_write<S: CtxStore>(before: S, after: S) -> bool {
    &&& after.writes().len() == before.writes().len() + 1
    &&& after.writes().drop_last() == before.writes()
    &&& after.entries() == apply_call(before.entries(), after.writes().last())
}

/// The default store: text values in memory, saved to and loaded from a JSON file.
pub struct Store {
    path: std::path::PathBuf,
    values: KeyedTable<String>,
    writes: Ghost<Seq<StoreCall>>,
}

impl Store {
    /// The map that the store holds.
    pub closed spec fn entries_view(&self) -> Map<Seq<char>, Seq<char>> {
        self.values@.map_values(|v: String| v@)
    }

    /// The writes made through `insert` and `delete`, first to last.
    pub closed spec fn writes_view(&self) -> Seq<StoreCall> {
        self.writes@
    }

    /// The file that the store is saved to and loaded from.
    pub closed spec fn path_view(&self) -> std::path::PathBuf {
        self.path
    }

    /// What `load` does: where `bytes` hold a JSON object of text values, it succeeds and
    /// the store then holds exactly those entries; otherwise it fails and the entries
    /// stay. The path and the record of writes stay either way.
    pub open spec fn load_post(before: Store, after: Store, bytes: Seq<u8>, ok: bool) -> bool {
        &&& after.path_view() == before.path_view()
        &&& after.writes_view() == before.writes_view()
        &&& match json_string_map(bytes) {
            Some(m) => ok && after.entries_view() == m,
            None => !ok && after.entries_view() == before.entries_view(),
        }
    }

    /// What `save` hands out: bytes that read back as the store's entries.
    pub open spec fn save_post(self, bytes: Seq<u8>) -> bool {
        json_string_map(bytes) == Some(self.entries_view())
    }

    /// An empty store for the file at `path`, with no writes made.
    pub fn new(path: std::path::PathBuf) -> (s: Self)
        ensures
            s.entries_view() == Map::<Seq<char>, Seq<char>>::empty(),
            s.writes_view() == Seq::<StoreCall>::empty(),
            s.path_view() == path,
    {
        let s = Store { path, values: KeyedTable::new(), writes: Ghost(Seq::empty()) };
        proof {
            assert(s.entries_view() =~= Map::<Seq<char>, Seq<char>>::empty());
        }
        s
    }

    /// The file that the store is saved to and loaded from.
    pub fn path(&self) -> (p: &std::path::PathBuf)
        ensures
            *p == self.path_view(),
    {
        &self.path
    }

    /// Replaces the entries by those of the JSON object in `bytes`, the contents of the
    /// store's file. Where the bytes are no such object, the entries stay and the error
    /// says that the file could not be read.
    pub fn load(&mut self, bytes: &[u8]) -> (r: Result<(), StoreError>)
        ensures
            Store::load_post(*old(self), *final(self), bytes@, r is Ok),
            r matches Err(e) ==> e@ == "Failed to read file: "@ + json_error_message(bytes@),
    {
        match decode_string_map(bytes) {
            Ok(entries) => {
                self.values = KeyedTable::from_entries(entries);
                Ok(())
            },
            Err(text) => Err(store_error("Failed to read file: ", text.as_str())),
        }
    }

    /// The contents of the store's file: the JSON object of the entries.
    pub fn save(&self) -> (bytes: Vec<u8>)
        ensures
            self.save_post(bytes@),
    {
        let entries = self.values.as_entries();
        match encode_string_map(entries) {
            Ok(bytes) => bytes,
            Err(_) => {
                proof {
                    assert(false);
                }
                Vec::new()
            },
        }
    }
}

impl CtxStore for Store {
    open spec fn entries(&self) -> Map<Seq<char>, Seq<char>> {
        self.entries_view()
    }

    open spec fn writes(&self) -> Seq<StoreCall> {
        self.writes_view()
    }

    fn insert(&mut self, key: &str, value: &str) -> (r: Result<(), StoreError>)
        ensures
            r is Ok,
            final(self).path_view() == old(self).path_view(),
    {
        self.values.insert(String::from_str(key), String::from_str(value));
        proof {
            self.writes@ = self.writes@.push(StoreCall::Insert(key@, value@));
            assert(self.entries_view() =~= old(self).entries_view().insert(key@, value@));
        }
        Ok(())
    }

    fn get(&self, key: &str) -> (r: Option<String>) {
        match self.values.get(key) {
            Some(v) => Some(v.clone()),
            None => None,
        }
    }

    fn delete(&mut self, key: &str) -> (r: Result<(), StoreError>)
        ensures
            r is Ok,
            final(self).path_view() == old(self).path_view(),
    {
        self.values.remove(key);
        proof {
            self.writes@ = self.writes@.push(StoreCall::Delete(key@));
            assert(self.entries_view() =~= old(self).entries_view().remove(key@));
        }
        Ok(())
    }
}

} // verus!
