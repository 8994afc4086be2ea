use vstd::prelude::*;

use crate::error::Error;
use crate::key_material::KeyMaterial;
use crate::key_name::{lemma_slot_injective, KeyName, KEY_NAME_COUNT};
use crate::store::{
    entries_after_delete, entries_after_put, get_outcome, key_result, put_outcome, KeychainImpl,
};

verus! {

/// A key store held in process memory: one slot per [`KeyName`].
pub struct InMemoryKeychain {
    slots: [Option<Vec<u8>>; KEY_NAME_COUNT],
}

/// The bytes held in a slot, if any.
pub open spec fn slot_bytes(slot: Option<Vec<u8>>) -> Seq<u8> {
    match slot {
        Some(v) => v@,
        None => Seq::empty(),
    }
}

impl InMemoryKeychain {
    /// The entries held, by name.
    pub closed spec fn view_entries(&self) -> Map<KeyName, Seq<u8>> {
        Map::new(
            |n: KeyName| self.slots@[n.slot()] is Some,
            |n: KeyName| slot_bytes(self.slots@[n.slot()]),
        )
    }

    /// An empty store.
    pub fn new() -> (r: Self)
        ensures
            r.view_entries() == Map::<KeyName, Seq<u8>>::empty(),
    {
        let slots: [Option<Vec<u8>>; KEY_NAME_COUNT] = [None];
        let r = InMemoryKeychain { slots };
        assert(r.view_entries() =~= Map::<KeyName, Seq<u8>>::empty()) by {
            assert forall|n: KeyName| !r.view_entries().contains_key(n) by {
                lemma_slot_injective(n, n);
            }
        }
        r
    }
}

impl KeychainImpl for InMemoryKeychain {
    open spec fn entries(&self) -> Map<KeyName, Seq<u8>> {
        self.view_entries()
    }

    fn get<const N: usize>(&self, name: KeyName) -> (r: Result<KeyMaterial<N>, Error>) {
        let i = name.slot_index();
        match &self.slots[i] {
            None => Err(Error::NotFound),
            Some(v) => {
                if v.len() != N {
                    Err(Error::LengthOrFormatMismatch)
                } else {
                    Ok(KeyMaterial::from_slice(v.as_slice()))
                }
            },
        }
    }

    fn delete_local(&mut self, name: KeyName) -> (r: Result<(), Error>) {
        let i = name.slot_index();
        self.slots[i] = None;
        proof {
            assert forall|n: KeyName| #[trigger] n.slot() == name.slot() implies n == name by {
                lemma_slot_injective(n, name);
            }
            assert(self.view_entries() =~= entries_after_delete(old(self).view_entries(), name));
        }
        Ok(())
    }

    fn put_local<const N: usize>(&mut self, name: KeyName, key: KeyMaterial<N>) -> (r: Result<
        (),
        Error,
    >) {
        let i = name.slot_index();
        if self.slots[i].is_some() {
            return Err(Error::AlreadyExists);
        }
        let bytes = key.to_vec();
        self.slots[i] = Some(bytes);
        proof {
            assert forall|n: KeyName| #[trigger] n.slot() == name.slot() implies n == name by {
                lemma_slot_injective(n, name);
            }
            assert(self.view_entries() =~= entries_after_put(
                old(self).view_entries(),
                name,
                key@,
            ));
        }
        Ok(())
    }
}

} // verus!
