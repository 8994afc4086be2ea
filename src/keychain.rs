use vstd::prelude::*;

use crate::error::Error;
use crate::in_memory::InMemoryKeychain;
use crate::key_material::KeyMaterial;
use crate::key_name::KeyName;
use crate::store::{
    delete_outcome, entries_after_delete, entries_after_put, get_outcome, key_result, put_outcome, KeychainImpl,
};

verus! {

/// The single entry point for storing key material.
///
/// It holds exactly one backing store, chosen at construction and kept for
/// its lifetime, and forwards every operation to it unchanged.
pub struct Keychain {
    keychain: InMemoryKeychain,
}

impl View for Keychain {
    type V = Map<KeyName, Seq<u8>>;

    closed spec fn view(&self) -> Map<KeyName, Seq<u8>> {
        self.keychain.entries()
    }
}

impl Keychain {
    /// A keychain over an empty backing store.
    pub fn new() -> (r: Self)
        ensures
            r@ == Map::<KeyName, Seq<u8>>::empty(),
    {
        let keychain = InMemoryKeychain::new();
        Keychain { keychain }
    }

    /// Reads the symmetric key stored under `name`, of length `N`.
    ///
    /// Fails with [`Error::NotFound`] when no entry is stored under `name`, and
    /// with [`Error::LengthOrFormatMismatch`] when the entry is not `N` bytes long.
    pub fn get<const N: usize>(&self, name: KeyName) -> (r: Result<KeyMaterial<N>, Error>)
        ensures
            key_result(r) == get_outcome(self@, name, N as nat),
    {
        self.keychain.get::<N>(name)
    }

    /// Removes the entry under `name`. Removing an absent name succeeds.
    pub fn delete(&mut self, name: KeyName) -> (r: Result<(), Error>)
        ensures
            r == delete_outcome(old(self)@, name),
            final(self)@ == entries_after_delete(old(self)@, name),
    {
        self.keychain.delete_local(name)
    }

    /// Stores `key` under `name` on the local store. Fails with
    /// [`Error::AlreadyExists`], leaving the store unchanged, when an entry is
    /// already stored under `name`.
    pub fn put_local<const N: usize>(&mut self, name: KeyName, key: KeyMaterial<N>) -> (r: Result<
        (),
        Error,
    >)
        ensures
            r == put_outcome(old(self)@, name),
            final(self)@ == entries_after_put(old(self)@, name, key@),
    {
        self.keychain.put_local(name, key)
    }
}

impl Default for Keychain {
    fn default() -> (r: Self)
        ensures
            r@ == Map::<KeyName, Seq<u8>>::empty(),
    {
        Keychain::new()
    }
}

} // verus!
