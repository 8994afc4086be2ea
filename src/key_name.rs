use vstd::prelude::*;

verus! {

/// Number of names in [`KeyName`].
pub const KEY_NAME_COUNT: usize = 1;

/// The closed set of names under which key material is stored.
#[derive(Debug, Clone, Copy, PartialEq, Eq, Hash, Structural)]
pub enum KeyName {
    /// The key that encrypts the secret-key encryption keys.
    SkKeyEncryptionKey,
}

impl KeyName {
    /// Position of the name in a table with one slot per name.
    pub open spec fn slot(self) -> int {
        match self {
            KeyName::SkKeyEncryptionKey => 0,
        }
    }

    /// Executable form of [`KeyName::slot`].
    pub fn slot_index(&self) -> (r: usize)
        ensures
            r as int == self.slot(),
            r < KEY_NAME_COUNT,
    {
        match self {
            KeyName::SkKeyEncryptionKey => 0,
        }
    }

    /// The name's identifier as stored by a platform store.
    pub fn as_str(&self) -> (r: &'static str)
        ensures
            r@ == self.label(),
    {
        match self {
            KeyName::SkKeyEncryptionKey => "sk-key-encryption-key",
        }
    }

    /// The name's identifier.
    pub open spec fn label(self) -> Seq<char> {
        match self {
            KeyName::SkKeyEncryptionKey => "sk-key-encryption-key"@,
        }
    }
}

/// Every name has a slot in a table of [`KEY_NAME_COUNT`] entries, and no two names share one.
pub proof fn lemma_slot_injective(a: KeyName, b: KeyName)
    ensures
        0 <= a.slot() < KEY_NAME_COUNT,
        a.slot() == b.slot() ==> a == b,
{
}

} // verus!
