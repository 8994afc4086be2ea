use vstd::prelude::*;

use crate::error::Error;
use crate::key_name::KeyName;
use crate::store::{delete_outcome, entries_after_delete, entries_after_put, get_outcome, put_outcome};

verus! {

/// A store never overwrites: after `key` is stored under a free `name`, a
/// second `put_local` under that name fails with [`Error::AlreadyExists`] and
/// leaves the store as it was, so `get` still returns `key`.
pub proof fn lemma_put_never_overwrites(
    entries: Map<KeyName, Seq<u8>>,
    name: KeyName,
    key: Seq<u8>,
    other: Seq<u8>,
)
    requires
        !entries.contains_key(name),
    ensures
        put_outcome(entries, name) == Ok::<(), Error>(()),
        put_outcome(entries_after_put(entries, name, key), name) == Err::<(), Error>(
            Error::AlreadyExists,
        ),
        entries_after_put(entries_after_put(entries, name, key), name, other) == entries_after_put(
            entries,
            name,
            key,
        ),
        get_outcome(
            entries_after_put(entries_after_put(entries, name, key), name, other),
            name,
            key.len(),
        ) == Ok::<Seq<u8>, Error>(key),
{
}

/// Deleting a name that holds no entry succeeds and changes nothing.
pub proof fn lemma_delete_absent_is_noop(entries: Map<KeyName, Seq<u8>>, name: KeyName)
    requires
        !entries.contains_key(name),
    ensures
        delete_outcome(entries, name) == Ok::<(), Error>(()),
        entries_after_delete(entries, name) == entries,
{
    assert(entries.remove(name) =~= entries);
}

/// Deleting twice in a row succeeds both times, and the second delete changes nothing.
pub proof fn lemma_delete_twice(entries: Map<KeyName, Seq<u8>>, name: KeyName)
    ensures
        delete_outcome(entries, name) == Ok::<(), Error>(()),
        delete_outcome(entries_after_delete(entries, name), name) == Ok::<(), Error>(()),
        entries_after_delete(entries_after_delete(entries, name), name) == entries_after_delete(
            entries,
            name,
        ),
        !entries_after_delete(entries_after_delete(entries, name), name).contains_key(name),
{
    assert(entries.remove(name).remove(name) =~= entries.remove(name));
}

/// Key material stored under a free name is read back unchanged at its own length.
pub proof fn lemma_put_get_round_trip(entries: Map<KeyName, Seq<u8>>, name: KeyName, key: Seq<u8>)
    requires
        !entries.contains_key(name),
    ensures
        get_outcome(entries_after_put(entries, name, key), name, key.len()) == Ok::<
            Seq<u8>,
            Error,
        >(key),
{
}

/// The store and the outcomes after `put_local(name, keys[0])`, ..., `put_local(name, keys[last])`
/// in that order.
pub open spec fn puts_in_order(
    entries: Map<KeyName, Seq<u8>>,
    name: KeyName,
    keys: Seq<Seq<u8>>,
) -> (Map<KeyName, Seq<u8>>, Seq<Result<(), Error>>)
    decreases keys.len(),
{
    if keys.len() == 0 {
        (entries, Seq::empty())
    } else {
        let (before, outcomes) = puts_in_order(entries, name, keys.drop_last());
        (
            entries_after_put(before, name, keys.last()),
            outcomes.push(put_outcome(before, name)),
        )
    }
}

/// Of any number of `put_local` calls under one free name, taken in whatever
/// order a lock lets them through, exactly the first succeeds, every other
/// fails with [`Error::AlreadyExists`], and `get` afterwards returns the key of
/// the one that succeeded.
pub proof fn lemma_only_first_put_wins(
    entries: Map<KeyName, Seq<u8>>,
    name: KeyName,
    keys: Seq<Seq<u8>>,
)
    requires
        !entries.contains_key(name),
        keys.len() > 0,
    ensures
        puts_in_order(entries, name, keys).1.len() == keys.len(),
        puts_in_order(entries, name, keys).1[0] == Ok::<(), Error>(()),
        forall|i: int|
            0 < i < keys.len() ==> #[trigger] puts_in_order(entries, name, keys).1[i] == Err::<
                (),
                Error,
            >(Error::AlreadyExists),
        puts_in_order(entries, name, keys).0 == entries.insert(name, keys[0]),
        get_outcome(puts_in_order(entries, name, keys).0, name, keys[0].len()) == Ok::<
            Seq<u8>,
            Error,
        >(keys[0]),
    decreases keys.len(),
{
    if keys.len() == 1 {
        assert(keys.drop_last().len() == 0);
        assert(puts_in_order(entries, name, keys.drop_last()).1 =~= Seq::<Result<(), Error>>::empty());
    } else {
        let prefix = keys.drop_last();
        lemma_only_first_put_wins(entries, name, prefix);
        assert(prefix[0] == keys[0]);
        let (before, outcomes) = puts_in_order(entries, name, prefix);
        assert(before.contains_key(name));
        assert forall|i: int| 0 < i < keys.len() implies #[trigger] puts_in_order(
            entries,
            name,
            keys,
        ).1[i] == Err::<(), Error>(Error::AlreadyExists) by {
            if i < prefix.len() {
                assert(outcomes[i] == Err::<(), Error>(Error::AlreadyExists));
            }
        }
    }
}

} // verus!
