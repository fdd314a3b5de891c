//! What holds of the gated operations, whatever the records, the caller and
//! the identifier.

use crate::access::{permits, Access, UserData};
use crate::gateway::{
    payloads_after_delete, payloads_after_write, records_after_delete, records_after_write,
    verdict, write_verdict, Error,
};
use vstd::prelude::*;

verus! {

/// An identifier without record can be neither read nor deleted, nor written
/// where a write creates no record: each is refused with `NoneData`, and
/// records and payloads stay as they are.
pub proof fn lemma_missing_record_is_refused<AccountId>(
    records: Map<Seq<u8>, UserData<AccountId>>,
    payloads: Map<Seq<u8>, Seq<u8>>,
    user: AccountId,
    id: Seq<u8>,
    bytes: Seq<u8>,
)
    requires
        !records.contains_key(id),
    ensures
        verdict(records, user, id) == Err::<(), Error>(Error::NoneData),
        write_verdict(records, false, user, id) == Err::<(), Error>(Error::NoneData),
        records_after_write(records, write_verdict(records, false, user, id), user, id)
            == records,
        payloads_after_write(payloads, write_verdict(records, false, user, id), id, bytes)
            == payloads,
        records_after_delete(records, verdict(records, user, id), id) == records,
        payloads_after_delete(payloads, verdict(records, user, id), id) == payloads,
{
}

/// An operation that is refused changes neither records nor payloads.
pub proof fn lemma_refusal_changes_nothing<AccountId>(
    records: Map<Seq<u8>, UserData<AccountId>>,
    payloads: Map<Seq<u8>, Seq<u8>>,
    res: Result<(), Error>,
    user: AccountId,
    id: Seq<u8>,
    bytes: Seq<u8>,
)
    requires
        res is Err,
    ensures
        records_after_write(records, res, user, id) == records,
        payloads_after_write(payloads, res, id, bytes) == payloads,
        records_after_delete(records, res, id) == records,
        payloads_after_delete(payloads, res, id) == payloads,
{
}

/// The author of a record may read, write and delete the data, whatever
/// level the record declares.
pub proof fn lemma_author_is_never_refused<AccountId>(
    records: Map<Seq<u8>, UserData<AccountId>>,
    create_on_write: bool,
    user: AccountId,
    id: Seq<u8>,
)
    requires
        records.contains_key(id),
        records[id].author == user,
    ensures
        forall|op: Access| permits(user, records[id], op),
        verdict(records, user, id) is Ok,
        write_verdict(records, create_on_write, user, id) is Ok,
{
}

/// Behind a record that says `Avoid`, a caller who is not the author can
/// neither read nor write nor delete: each is refused with `PermissionDenied`.
pub proof fn lemma_avoid_shuts_out_others<AccountId>(
    records: Map<Seq<u8>, UserData<AccountId>>,
    create_on_write: bool,
    user: AccountId,
    id: Seq<u8>,
)
    requires
        records.contains_key(id),
        records[id].author != user,
        records[id].access == Access::Avoid,
    ensures
        verdict(records, user, id) == Err::<(), Error>(Error::PermissionDenied),
        write_verdict(records, create_on_write, user, id) == Err::<(), Error>(
            Error::PermissionDenied,
        ),
{
}

/// Behind a record that says `Read` or `Write`, every caller may read.
pub proof fn lemma_read_is_open_from_read_up<AccountId>(
    records: Map<Seq<u8>, UserData<AccountId>>,
    user: AccountId,
    id: Seq<u8>,
)
    requires
        records.contains_key(id),
        records[id].access == Access::Read || records[id].access == Access::Write,
    ensures
        verdict(records, user, id) is Ok,
{
}

/// A write leaves the record of an identifier that has one as it is: author
/// and level stay, and no other record changes either.
pub proof fn lemma_write_keeps_record<AccountId>(
    records: Map<Seq<u8>, UserData<AccountId>>,
    res: Result<(), Error>,
    user: AccountId,
    id: Seq<u8>,
)
    requires
        records.contains_key(id),
    ensures
        records_after_write(records, res, user, id) == records,
{
}

/// A deletion that went through leaves neither record nor payload under the
/// identifier: it then has no record, and reading it is refused with
/// `NoneData`.
pub proof fn lemma_delete_removes_record_and_payload<AccountId>(
    records: Map<Seq<u8>, UserData<AccountId>>,
    payloads: Map<Seq<u8>, Seq<u8>>,
    user: AccountId,
    reader: AccountId,
    id: Seq<u8>,
)
    requires
        verdict(records, user, id) is Ok,
    ensures
        !records_after_delete(records, verdict(records, user, id), id).contains_key(id),
        !payloads_after_delete(payloads, verdict(records, user, id), id).contains_key(id),
        verdict(records_after_delete(records, verdict(records, user, id), id), reader, id)
            == Err::<(), Error>(Error::NoneData),
{
}

/// Whether every identifier with a record has a payload.
pub open spec fn records_are_backed<AccountId>(
    records: Map<Seq<u8>, UserData<AccountId>>,
    payloads: Map<Seq<u8>, Seq<u8>>,
) -> bool {
    forall|id: Seq<u8>| records.contains_key(id) ==> payloads.contains_key(id)
}

/// Writing and deleting keep records and payloads in step: where every
/// identifier with a record had a payload before, it has one after.
pub proof fn lemma_records_stay_backed<AccountId>(
    records: Map<Seq<u8>, UserData<AccountId>>,
    payloads: Map<Seq<u8>, Seq<u8>>,
    res: Result<(), Error>,
    user: AccountId,
    id: Seq<u8>,
    bytes: Seq<u8>,
)
    requires
        records_are_backed(records, payloads),
    ensures
        records_are_backed(
            records_after_write(records, res, user, id),
            payloads_after_write(payloads, res, id, bytes),
        ),
        records_are_backed(
            records_after_delete(records, res, id),
            payloads_after_delete(payloads, res, id),
        ),
{
}

} // verus!
