//! Storage of symmetric key material in a create-once key store.
//!
//! Key material of a fixed length is stored under a symbolic [`KeyName`].
//! A name holds at most one entry: storing under a taken name fails with
//! [`Error::AlreadyExists`], and deleting is idempotent. The behaviour of
//! every store is stated once, over a map from names to bytes, in [`store`];
//! [`laws`] proves what follows for sequences of operations.
mod error;
mod in_memory;
mod key_material;
mod key_name;
mod keychain;
pub mod laws;
mod resources;
pub mod store;

pub use error::Error;
pub use in_memory::InMemoryKeychain;
pub use key_material::KeyMaterial;
pub use key_name::{lemma_slot_injective, KeyName, KEY_NAME_COUNT};
pub use keychain::Keychain;
pub use resources::{CoreResources, CoreResourcesI};
pub use store::KeychainImpl;
