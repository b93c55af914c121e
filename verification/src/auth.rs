//! Credentials: the keys they are filed under, the secrets themselves, the
//! stores that keep them and the manager that resolves them.

pub mod codec;
pub mod error;
pub mod key;
pub mod keyed;
pub mod keyring_store;
pub mod manager;
pub mod secret;
pub mod store;
pub mod token;

pub use error::AuthError;
pub use key::{CredentialDomain, CredentialKey};
pub use keyring_store::KeyringCredentialStore;
pub use manager::CredentialManager;
pub use secret::CredentialSecret;
pub use store::{CredentialStore, MemoryCredentialStore};
pub use token::{CachedToken, RedfishSession, TokenCache};
