//! The storage that holds the payloads.

use vstd::prelude::*;

verus! {

/// An external storage service, to be implemented for a specific storage:
/// a file system, a key-value database, a content-addressed network.
///
/// The backend is described by the payloads it holds, by identifier, and
/// each call by what it does to them. Nothing here holds an implementation to
/// that description: what is proved of the gateway's effect on the payloads
/// is proved of backends that meet it. An implementation that cannot serve a
/// call does not return from it.
pub trait ExternalStorage {
    /// The payloads that the backend holds. An implementation says what they
    /// are; of one that does not, nothing is known.
    open spec fn payloads(&self) -> Map<Seq<u8>, Seq<u8>> {
        arbitrary()
    }

    /// Retrieves the payload stored under `key`. What comes back for a key
    /// without payload is up to the backend.
    fn get(&self, key: Vec<u8>) -> (value: Vec<u8>)
        ensures
            self.payloads().contains_key(key@) ==> value@ == self.payloads()[key@],
    ;

    /// Stores `value` under `key`, in place of what was there.
    fn set(&mut self, key: Vec<u8>, value: Vec<u8>)
        ensures
            final(self).payloads() == old(self).payloads().insert(key@, value@),
    ;

    /// Removes the payload stored under `key`.
    fn delete(&mut self, key: Vec<u8>)
        ensures
            final(self).payloads() == old(self).payloads().remove(key@),
    ;
}

} // verus!
