use vstd::prelude::*;

use crate::error::Error;
use crate::key_material::KeyMaterial;
use crate::key_name::KeyName;

verus! {

/// What `get` returns on a store holding `entries`, for a requested length `len`.
pub open spec fn get_outcome(entries: Map<KeyName, Seq<u8>>, name: KeyName, len: nat) -> Result<
    Seq<u8>,
    Error,
> {
    if !entries.contains_key(name) {
        Err(Error::NotFound)
    } else if entries[name].len() != len {
        Err(Error::LengthOrFormatMismatch)
    } else {
        Ok(entries[name])
    }
}

/// What `put_local` returns on a store holding `entries`.
pub open spec fn put_outcome(entries: Map<KeyName, Seq<u8>>, name: KeyName) -> Result<(), Error> {
    if entries.contains_key(name) {
        Err(Error::AlreadyExists)
    } else {
        Ok(())
    }
}

/// The entries after `put_local(name, key)`: a taken name is never overwritten.
pub open spec fn entries_after_put(
    entries: Map<KeyName, Seq<u8>>,
    name: KeyName,
    key: Seq<u8>,
) -> Map<KeyName, Seq<u8>> {
    if entries.contains_key(name) {
        entries
    } else {
        entries.insert(name, key)
    }
}

/// The entries after `delete(name)`, which always succeeds.
pub open spec fn entries_after_delete(entries: Map<KeyName, Seq<u8>>, name: KeyName) -> Map<
    KeyName,
    Seq<u8>,
> {
    entries.remove(name)
}

/// What `delete` returns: removing an entry always succeeds, whether or not it was there.
pub open spec fn delete_outcome(entries: Map<KeyName, Seq<u8>>, name: KeyName) -> Result<(), Error> {
    Ok(())
}

/// The bytes of a key that `get` returned, or its error.
pub open spec fn key_result<const N: usize>(r: Result<KeyMaterial<N>, Error>) -> Result<
    Seq<u8>,
    Error,
> {
    match r {
        Ok(k) => Ok(k@),
        Err(e) => Err(e),
    }
}

/// A backing store for key material. Every implementation gives the same
/// outcomes for the same sequence of operations.
pub trait KeychainImpl: Sized {
    /// The entries held, by name.
    spec fn entries(&self) -> Map<KeyName, Seq<u8>>;

    /// Reads the key stored under `name`, of length `N`.
    fn get<const N: usize>(&self, name: KeyName) -> (r: Result<KeyMaterial<N>, Error>)
        ensures
            key_result(r) == get_outcome(self.entries(), name, N as nat),
    ;

    /// Removes the entry under `name`, if any. Removing an absent name succeeds.
    fn delete_local(&mut self, name: KeyName) -> (r: Result<(), Error>)
        ensures
            r == delete_outcome(old(self).entries(), name),
            final(self).entries() == entries_after_delete(old(self).entries(), name),
    ;

    /// Stores `key` under `name` unless an entry is already there.
    fn put_local<const N: usize>(&mut self, name: KeyName, key: KeyMaterial<N>) -> (r: Result<
        (),
        Error,
    >)
        ensures
            r == put_outcome(old(self).entries(), name),
            final(self).entries() == entries_after_put(old(self).entries(), name, key@),
    ;
}

} // verus!
