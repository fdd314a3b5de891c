//! Access levels, the per-identifier record, and the rule that decides whether
//! a caller may operate on a record.

use vstd::prelude::*;

verus! {

/// The access that a record grants to callers other than its author.
///
/// The levels are ordered by [`Access::rank`]: `Avoid < Read < Write`.
#[derive(Clone, Copy, PartialEq, Eq, Debug, Structural)]
pub enum Access {
    /// No one but the author may read or write the data.
    Avoid,
    /// Every caller may read the data.
    Read,
    /// Every caller may read and write the data.
    Write,
}

impl Access {
    /// The strength of a level; levels are compared by rank only.
    pub open spec fn rank(self) -> nat {
        match self {
            Access::Avoid => 0,
            Access::Read => 1,
            Access::Write => 2,
        }
    }
}

impl Default for Access {
    /// The level of a record for which none was chosen: `Read`.
    fn default() -> (level: Self)
        ensures
            level == Access::Read,
    {
        Access::Read
    }
}

/// The rank of an access level as a number, for comparing levels.
pub fn access_value(ac: Access) -> (value: u8)
    ensures
        value == ac.rank(),
{
    match ac {
        Access::Avoid => 0,
        Access::Read => 1,
        Access::Write => 2,
    }
}

/// The record kept for one data identifier.
#[derive(Clone, PartialEq, Eq, Debug)]
pub struct UserData<AccountId> {
    /// The identity that created the data. The author keeps every right on
    /// it, whatever `access` says.
    pub author: AccountId,
    /// What callers other than the author may do.
    pub access: Access,
}

impl<AccountId: Default> Default for UserData<AccountId> {
    /// The record of the default identity, with the default level.
    fn default() -> (data: Self)
        ensures
            call_ensures(AccountId::default, (), data.author),
            data.access == Access::Read,
    {
        UserData { author: AccountId::default(), access: Access::Read }
    }
}

/// Whether `user` may perform an operation that asks for level `op` on the
/// data described by `data`: the record grants at least `op` to everybody, or
/// `user` is its author.
pub open spec fn permits<AccountId>(user: AccountId, data: UserData<AccountId>, op: Access) -> bool {
    data.access.rank() >= op.rank() || user == data.author
}

} // verus!
