use vstd::prelude::*;

verus! {

/// The contents of a key-value store: each key maps to a non-empty value.
pub type Store = Map<Seq<u8>, Seq<u8>>;

/// A byte-keyed key-value store, as modules and contracts see the chain state.
pub trait KvStore {
    /// What the store holds.
    spec fn kv(&self) -> Store;

    /// What lies below the store and stays untouched by writes to it (for a
    /// cache, the store it caches; for a plain store, nothing).
    spec fn below(&self) -> Store;

    /// Reads the value stored under `key`.
    fn get(&self, key: &[u8]) -> (res: Option<Vec<u8>>)
        ensures
            res is Some <==> self.kv().contains_key(key@),
            res matches Some(v) ==> v@ == self.kv()[key@];

    /// Stores `value` under `key`; an empty value is not accepted.
    fn set(&mut self, key: &[u8], value: &[u8])
        requires
            value@.len() > 0,
        ensures
            final(self).kv() == old(self).kv().insert(key@, value@),
            final(self).below() == old(self).below();

    /// Removes whatever is stored under `key`.
    fn remove(&mut self, key: &[u8])
        ensures
            final(self).kv() == old(self).kv().remove(key@),
            final(self).below() == old(self).below();
}

#[verifier::external_type_specification]
#[verifier::external_body]
pub struct ExMemoryStorage(cosmwasm_std::MemoryStorage);

/// The key-value pairs held by a `cosmwasm_std::MemoryStorage` (the in-memory
/// storage that `cosmwasm_std::testing::MockStorage` names).
pub uninterp spec fn memory_storage_contents(storage: cosmwasm_std::MemoryStorage) -> Store;

/// Calls `Storage::get` of `cosmwasm_std::MemoryStorage`; its source clones
/// the value that its `BTreeMap` holds under the key, if any.
#[verifier::external_body]
fn memory_storage_get(storage: &cosmwasm_std::MemoryStorage, key: &[u8]) -> (res: Option<Vec<u8>>)
    ensures
        res is Some <==> memory_storage_contents(*storage).contains_key(key@),
        res matches Some(v) ==> v@ == memory_storage_contents(*storage)[key@],
{
    cosmwasm_std::Storage::get(storage, key)
}

/// Calls `Storage::set` of `cosmwasm_std::MemoryStorage`; its source panics
/// on an empty value (left out here) and otherwise inserts the pair into its
/// `BTreeMap`, replacing any earlier value of the key.
#[verifier::external_body]
fn memory_storage_set(storage: &mut cosmwasm_std::MemoryStorage, key: &[u8], value: &[u8])
    requires
        value@.len() > 0,
    ensures
        memory_storage_contents(*final(storage)) == memory_storage_contents(*old(storage)).insert(key@, value@),
{
    cosmwasm_std::Storage::set(storage, key, value)
}

/// Calls `Storage::remove` of `cosmwasm_std::MemoryStorage`; its source
/// removes the key from its `BTreeMap`.
#[verifier::external_body]
fn memory_storage_remove(storage: &mut cosmwasm_std::MemoryStorage, key: &[u8])
    ensures
        memory_storage_contents(*final(storage)) == memory_storage_contents(*old(storage)).remove(key@),
{
    cosmwasm_std::Storage::remove(storage, key)
}

impl KvStore for cosmwasm_std::MemoryStorage {
    open spec fn kv(&self) -> Store {
        memory_storage_contents(*self)
    }

    open spec fn below(&self) -> Store {
        Store::empty()
    }

    fn get(&self, key: &[u8]) -> (res: Option<Vec<u8>>) {
        memory_storage_get(self, key)
    }

    fn set(&mut self, key: &[u8], value: &[u8]) {
        memory_storage_set(self, key, value)
    }

    fn remove(&mut self, key: &[u8]) {
        memory_storage_remove(self, key)
    }
}

} // verus!
