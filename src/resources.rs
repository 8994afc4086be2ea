use vstd::prelude::*;

use crate::keychain::Keychain;

verus! {

/// Access to the long-lived services that the rest of the system shares,
/// so that callers can be handed mock resources.
pub trait CoreResourcesI {
    /// The keychain that stores key material.
    fn keychain(&self) -> &Keychain;
}

/// The shared services, grouped so that one handle reaches all of them.
pub struct CoreResources {
    keychain: Keychain,
}

impl CoreResources {
    /// The keychain held, as a spec value.
    pub closed spec fn keychain_spec(&self) -> Keychain {
        self.keychain
    }

    /// Groups the given services.
    pub fn new(keychain: Keychain) -> (r: Self)
        ensures
            r.keychain_spec() == keychain,
    {
        CoreResources { keychain }
    }

    /// Mutable access to the keychain, for storing and deleting keys.
    pub fn keychain_mut(&mut self) -> (r: &mut Keychain)
        ensures
            *r == old(self).keychain_spec(),
            final(self).keychain_spec() == *final(r),
    {
        &mut self.keychain
    }
}

impl CoreResourcesI for CoreResources {
    fn keychain(&self) -> &Keychain {
        &self.keychain
    }
}

} // verus!
