//! Permissioned indirection to externally stored data.
//!
//! A ledger keeps, for every data identifier, a small record that names the
//! author of the data and the access level granted to everybody else. The
//! payload itself lives in an external storage backend. Reading, writing and
//! deleting a payload are gated by the record kept for its identifier.

pub mod access;
pub mod backend;
pub mod gateway;
pub mod laws;
pub mod store;

pub use access::{access_value, Access, UserData};
pub use backend::ExternalStorage;
pub use gateway::{Error, Event, Module};
pub use store::MetadataStore;
