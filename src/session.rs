use vstd::prelude::*;
use crate::account::{account_of_key, Account};
use crate::c_error::ErrorSlot;
use crate::handle::HandleTable;
use crate::record::{record_sound, Record};

verus! {

/// Everything the boundary holds for one caller: the objects handed out and
/// the pending error.
pub struct Session {
    pub accounts: HandleTable<Account>,
    pub records: HandleTable<Record>,
    pub errors: ErrorSlot,
}

impl Session {
    /// Both tables are well formed, every held account is the account of its
    /// own private key text, and every held record is sound.
    pub open spec fn wf(&self) -> bool {
        &&& self.accounts.wf()
        &&& self.records.wf()
        &&& forall|h: crate::handle::Handle|
            self.accounts@.contains_key(h) ==> account_of_key(
                #[trigger] self.accounts@[h],
                self.accounts@[h].private_key@,
            )
        &&& forall|h: crate::handle::Handle|
            self.records@.contains_key(h) ==> record_sound(#[trigger] self.records@[h])
    }

    /// Handles of both tables only move forward from `self` to `later`: a
    /// handle that was freed stays unusable.
    pub open spec fn steps_to(&self, later: &Session) -> bool {
        &&& later.wf()
        &&& self.accounts.grows_into(&later.accounts)
        &&& self.records.grows_into(&later.records)
    }

    /// A session with no objects and no pending error.
    pub fn new() -> (r: Session)
        ensures
            r.wf(),
            r.accounts@ == Map::<crate::handle::Handle, Account>::empty(),
            r.records@ == Map::<crate::handle::Handle, Record>::empty(),
            r.errors@ == None::<Seq<char>>,
    {
        Session {
            accounts: HandleTable::new(),
            records: HandleTable::new(),
            errors: ErrorSlot::new(),
        }
    }
}

} // verus!
