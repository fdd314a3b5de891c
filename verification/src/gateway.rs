//! The gated operations: reading, writing and deleting a payload behind the
//! check of the record kept for its identifier.
//!
//! Every operation asks for level `Read`: a caller who may read data that is
//! not theirs may also overwrite and delete it, unless the record says `Avoid`.

use crate::access::{access_value, permits, Access, UserData};
use crate::backend::ExternalStorage;
use crate::store::MetadataStore;
use vstd::laws_eq::obeys_concrete_eq;
use vstd::prelude::*;

verus! {

/// Why an operation was refused.
#[derive(Clone, Copy, PartialEq, Eq, Debug, Structural)]
pub enum Error {
    /// The caller has no access to operate on the data.
    PermissionDenied,
    /// The external storage failed. No operation of this library returns it:
    /// a backend that fails does not return.
    ExternalError,
    /// The identifier has no record: the data was never uploaded.
    NoneData,
}

/// What an operation lets the outside know.
#[derive(Clone, PartialEq, Eq, Debug)]
pub enum Event {
    /// Data was read; the bytes are those that the storage handed out.
    GetData(Vec<u8>),
}

impl Event {
    /// The bytes that the event carries.
    pub open spec fn payload(self) -> Seq<u8> {
        match self {
            Event::GetData(bytes) => bytes@,
        }
    }
}

/// The record that a write creates for an identifier that had none: `user`
/// becomes the author, the level is the default one.
pub open spec fn fresh_record<AccountId>(user: AccountId) -> UserData<AccountId> {
    UserData { author: user, access: Access::Read }
}

/// What the check of the records says to `user` about reading or deleting `id`.
pub open spec fn verdict<AccountId>(
    records: Map<Seq<u8>, UserData<AccountId>>,
    user: AccountId,
    id: Seq<u8>,
) -> Result<(), Error> {
    if !records.contains_key(id) {
        Err(Error::NoneData)
    } else if !permits(user, records[id], Access::Read) {
        Err(Error::PermissionDenied)
    } else {
        Ok(())
    }
}

/// What the check of the records says to `user` about writing `id`. Where
/// `create_on_write` is set, an identifier without record may be written by
/// anybody.
pub open spec fn write_verdict<AccountId>(
    records: Map<Seq<u8>, UserData<AccountId>>,
    create_on_write: bool,
    user: AccountId,
    id: Seq<u8>,
) -> Result<(), Error> {
    if create_on_write && !records.contains_key(id) {
        Ok(())
    } else {
        verdict(records, user, id)
    }
}

/// The records after a write of `id` by `user` that ended in `res`: a write
/// that went through gives an identifier without record a fresh one, and
/// leaves every record that was there as it is.
pub open spec fn records_after_write<AccountId>(
    records: Map<Seq<u8>, UserData<AccountId>>,
    res: Result<(), Error>,
    user: AccountId,
    id: Seq<u8>,
) -> Map<Seq<u8>, UserData<AccountId>> {
    if res is Ok && !records.contains_key(id) {
        records.insert(id, fresh_record(user))
    } else {
        records
    }
}

/// The payloads after a write of `bytes` under `id` that ended in `res`.
pub open spec fn payloads_after_write(
    payloads: Map<Seq<u8>, Seq<u8>>,
    res: Result<(), Error>,
    id: Seq<u8>,
    bytes: Seq<u8>,
) -> Map<Seq<u8>, Seq<u8>> {
    if res is Ok {
        payloads.insert(id, bytes)
    } else {
        payloads
    }
}

/// The records after a deletion of `id` that ended in `res`.
pub open spec fn records_after_delete<AccountId>(
    records: Map<Seq<u8>, UserData<AccountId>>,
    res: Result<(), Error>,
    id: Seq<u8>,
) -> Map<Seq<u8>, UserData<AccountId>> {
    if res is Ok {
        records.remove(id)
    } else {
        records
    }
}

/// The payloads after a deletion of `id` that ended in `res`.
pub open spec fn payloads_after_delete(
    payloads: Map<Seq<u8>, Seq<u8>>,
    res: Result<(), Error>,
    id: Seq<u8>,
) -> Map<Seq<u8>, Seq<u8>> {
    if res is Ok {
        payloads.remove(id)
    } else {
        payloads
    }
}

/// The gateway to the external storage: the records, and the choice whether a
/// write to an identifier without record creates one.
pub struct Module<AccountId> {
    data: MetadataStore<AccountId>,
    create_on_write: bool,
}

impl<AccountId> Module<AccountId> {
    /// The records that the gateway keeps.
    pub closed spec fn records(&self) -> Map<Seq<u8>, UserData<AccountId>> {
        self.data@
    }

    /// Whether a write to an identifier without record creates one.
    pub closed spec fn creates_on_write(&self) -> bool {
        self.create_on_write
    }

    /// A gateway without records.
    pub fn new(create_on_write: bool) -> (module: Self)
        ensures
            module.records() == Map::<Seq<u8>, UserData<AccountId>>::empty(),
            module.creates_on_write() == create_on_write,
    {
        Module { data: MetadataStore::new(), create_on_write }
    }

    /// A gateway over records that were provisioned beforehand.
    pub fn with_data(data: MetadataStore<AccountId>, create_on_write: bool) -> (module: Self)
        ensures
            module.records() == data@,
            module.creates_on_write() == create_on_write,
    {
        Module { data, create_on_write }
    }

    /// The records, for looking into them.
    pub fn data(&self) -> (data: &MetadataStore<AccountId>)
        ensures
            data@ == self.records(),
    {
        &self.data
    }

    /// Whether a write to an identifier without record creates one.
    pub fn create_on_write(&self) -> (create: bool)
        ensures
            create == self.creates_on_write(),
    {
        self.create_on_write
    }

    /// The record of `data_id`; the default record where it has none.
    pub fn get_data(&self, data_id: &Vec<u8>) -> (data: UserData<AccountId>) where
        AccountId: Clone + Default,
        ensures
            self.records().contains_key(data_id@) ==> cloned(
                self.records()[data_id@].author,
                data.author,
            ) && data.access == self.records()[data_id@].access,
            !self.records().contains_key(data_id@) ==> call_ensures(
                AccountId::default,
                (),
                data.author,
            ) && data.access == Access::Read,
    {
        self.data.get(data_id)
    }

    fn get_external_storage<S: ExternalStorage>(storage: &S, data_id: Vec<u8>) -> (value: Vec<u8>)
        ensures
            call_ensures(S::get, (storage, data_id), value),
            storage.payloads().contains_key(data_id@) ==> value@ == storage.payloads()[data_id@],
    {
        storage.get(data_id)
    }

    fn set_external_storage<S: ExternalStorage>(storage: &mut S, data_id: Vec<u8>, data: Vec<u8>)
        ensures
            final(storage).payloads() == old(storage).payloads().insert(data_id@, data@),
    {
        storage.set(data_id, data)
    }

    fn delete_external_storage<S: ExternalStorage>(storage: &mut S, data_id: Vec<u8>)
        ensures
            final(storage).payloads() == old(storage).payloads().remove(data_id@),
    {
        storage.delete(data_id)
    }
}

impl<AccountId: PartialEq> Module<AccountId> {
    /// Decides whether `user` may perform an operation that asks for level
    /// `op` on the data that `data` describes.
    ///
    /// The contract speaks of identities whose `==` is equality; of any
    /// other, it says that a record that grants the level lets the caller in.
    pub fn check_op_access(user: AccountId, data: &UserData<AccountId>, op: Access) -> (allowed:
        bool)
        ensures
            obeys_concrete_eq::<AccountId>() ==> allowed == permits(user, *data, op),
            data.access.rank() >= op.rank() ==> allowed,
    {
        proof {
            reveal(obeys_concrete_eq);
        }
        access_value(data.access) >= access_value(op) || user == data.author
    }

    /// Reads the payload of `data_id` on behalf of `user`.
    ///
    /// Refused with `NoneData` where `data_id` has no record, and with
    /// `PermissionDenied` where its record does not let `user` read. Else the
    /// storage is asked once, and the one event that comes back carries the
    /// bytes it answered with. Neither records nor payloads change.
    pub fn read_data<S: ExternalStorage>(
        &self,
        storage: &S,
        user: AccountId,
        data_id: Vec<u8>,
    ) -> (res: Result<Event, Error>)
        ensures
            (res matches Err(Error::NoneData)) <==> !self.records().contains_key(data_id@),
            !(res matches Err(Error::ExternalError)),
            obeys_concrete_eq::<AccountId>() ==> match res {
                Ok(_) => verdict(self.records(), user, data_id@) is Ok,
                Err(e) => verdict(self.records(), user, data_id@) == Err::<(), Error>(e),
            },
            res matches Ok(Event::GetData(bytes)) ==> call_ensures(
                S::get,
                (storage, data_id),
                bytes,
            ),
            res matches Ok(event) ==> storage.payloads().contains_key(data_id@) ==> event.payload()
                == storage.payloads()[data_id@],
    {
        match self.data.find(&data_id) {
            None => Err(Error::NoneData),
            Some(data) => {
                if !Self::check_op_access(user, data, Access::Read) {
                    Err(Error::PermissionDenied)
                } else {
                    let data = Self::get_external_storage(storage, data_id);
                    Ok(Event::GetData(data))
                }
            },
        }
    }

    /// Writes `write_data` as the payload of `data_id` on behalf of `user`.
    ///
    /// Where `data_id` has a record, the write is refused with
    /// `PermissionDenied` unless the record lets `user` read; the record
    /// itself never changes. Where it has none, the write is refused with
    /// `NoneData`, unless this gateway creates records on write: then `user`
    /// becomes the author of a fresh record. A write that is refused changes
    /// neither records nor payloads.
    pub fn write_data<S: ExternalStorage>(
        &mut self,
        storage: &mut S,
        user: AccountId,
        data_id: Vec<u8>,
        write_data: Vec<u8>,
    ) -> (res: Result<(), Error>)
        ensures
            final(self).creates_on_write() == old(self).creates_on_write(),
            final(self).records() == records_after_write(old(self).records(), res, user, data_id@),
            final(storage).payloads() == payloads_after_write(
                old(storage).payloads(),
                res,
                data_id@,
                write_data@,
            ),
            (res matches Err(Error::NoneData)) <==> (!old(self).records().contains_key(data_id@)
                && !old(self).creates_on_write()),
            !(res matches Err(Error::ExternalError)),
            obeys_concrete_eq::<AccountId>() ==> res == write_verdict(
                old(self).records(),
                old(self).creates_on_write(),
                user,
                data_id@,
            ),
    {
        match self.data.find(&data_id) {
            Some(data) => {
                if !Self::check_op_access(user, data, Access::Read) {
                    Err(Error::PermissionDenied)
                } else {
                    Self::set_external_storage(storage, data_id, write_data);
                    Ok(())
                }
            },
            None => {
                if !self.create_on_write {
                    Err(Error::NoneData)
                } else {
                    Self::set_external_storage(storage, data_id.clone(), write_data);
                    self.data.insert(data_id, UserData { author: user, access: Access::default() });
                    Ok(())
                }
            },
        }
    }

    /// Deletes the payload of `data_id`, and its record, on behalf of `user`.
    ///
    /// Refused with `NoneData` where `data_id` has no record, and with
    /// `PermissionDenied` where its record does not let `user` read; then
    /// neither records nor payloads change.
    pub fn delete_data<S: ExternalStorage>(
        &mut self,
        storage: &mut S,
        user: AccountId,
        data_id: Vec<u8>,
    ) -> (res: Result<(), Error>)
        ensures
            final(self).creates_on_write() == old(self).creates_on_write(),
            final(self).records() == records_after_delete(old(self).records(), res, data_id@),
            final(storage).payloads() == payloads_after_delete(
                old(storage).payloads(),
                res,
                data_id@,
            ),
            (res matches Err(Error::NoneData)) <==> !old(self).records().contains_key(data_id@),
            !(res matches Err(Error::ExternalError)),
            obeys_concrete_eq::<AccountId>() ==> res == verdict(old(self).records(), user, data_id@),
    {
        match self.data.find(&data_id) {
            None => Err(Error::NoneData),
            Some(data) => {
                if !Self::check_op_access(user, data, Access::Read) {
                    Err(Error::PermissionDenied)
                } else {
                    Self::delete_external_storage(storage, data_id.clone());
                    self.data.remove(&data_id);
                    Ok(())
                }
            },
        }
    }
}

} // verus!
