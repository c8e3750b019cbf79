use vstd::prelude::*;
use crate::c_error::update_last_error;
use crate::handle::Handle;
use crate::ledger::{
    address_of, derive_account, generate_account, private_key_accepted, private_key_from_seed,
    view_key_accepted, view_key_of, BASE58_TEXT_LIMIT, SEED_SIZE,
};
use vstd::string::StrSliceExecFns;
use crate::session::Session;

verus! {

/// An account, held as the texts of its private key, view key and address.
pub struct Account {
    pub private_key: String,
    pub view_key: String,
    pub address: String,
}

/// `a` is the account whose private key text is `key`.
pub open spec fn account_of_key(a: Account, key: Seq<char>) -> bool {
    &&& a.private_key@ == key
    &&& a.view_key@ == view_key_of(key)
    &&& a.address@ == address_of(key)
    &&& view_key_accepted(a.view_key@)
    &&& a.view_key@.len() <= BASE58_TEXT_LIMIT
}

/// The account derived from a seed: that of the private key the seed gives,
/// whose text `from_sk` accepts.
pub open spec fn account_of_seed(a: Account, seed: Seq<u8>) -> bool {
    &&& account_of_key(a, private_key_from_seed(seed))
    &&& private_key_accepted(a.private_key@)
    &&& a.private_key@.len() <= BASE58_TEXT_LIMIT
}

/// A constructor's outcome on the account table: either a fresh handle to an
/// account that meets `made`, with the error slot untouched, or no handle, the
/// table untouched and an error pending. The record table is untouched.
pub open spec fn account_outcome(
    before: Session,
    after: Session,
    r: Option<Handle>,
    made: spec_fn(Account) -> bool,
) -> bool {
    &&& before.steps_to(&after)
    &&& after.records@ == before.records@
    &&& match r {
        Some(h) => {
            &&& !before.accounts@.contains_key(h)
            &&& !before.accounts.retired(h)
            &&& after.accounts@ == before.accounts@.insert(h, after.accounts@[h])
            &&& made(after.accounts@[h])
            &&& after.errors@ == before.errors@
        },
        None => {
            &&& after.accounts@ == before.accounts@
            &&& after.errors@ is Some
        },
    }
}

/// Derives the account of a private key text. Text that is not a private key
/// (or is longer than any key text) leaves no account and sets the pending
/// error.
pub fn from_sk(session: &mut Session, sk: &str) -> (r: Option<Handle>)
    requires
        old(session).wf(),
    ensures
        r is Some <==> sk@.len() <= BASE58_TEXT_LIMIT && private_key_accepted(sk@),
        sk@.len() > BASE58_TEXT_LIMIT ==> final(session).errors@ == Some(
            "private key text is too long"@,
        ),
        account_outcome(*old(session), *final(session), r, |a: Account| account_of_key(a, sk@)),
{
    if sk.unicode_len() > BASE58_TEXT_LIMIT {
        update_last_error(&mut session.errors, String::from_str("private key text is too long"));
        return None;
    }
    match derive_account(sk) {
        Ok(account) => Some(session.accounts.insert(account)),
        Err(msg) => {
            update_last_error(&mut session.errors, msg);
            None
        },
    }
}

/// Copies a seed of the right length into an array.
pub(crate) fn seed_array(bytes: &[u8]) -> (r: [u8; 32])
    requires
        bytes@.len() == SEED_SIZE,
    ensures
        r@ == bytes@,
{
    let mut seed = [0u8; 32];
    let mut i: usize = 0;
    while i < SEED_SIZE
        invariant
            bytes@.len() == SEED_SIZE,
            seed@.len() == SEED_SIZE,
            0 <= i <= SEED_SIZE,
            forall|j: int| 0 <= j < i ==> seed@[j] == bytes@[j],
        decreases SEED_SIZE - i,
    {
        seed[i] = bytes[i];
        i = i + 1;
    }
    assert(seed@ =~= bytes@);
    seed
}

/// Derives an account from a 32-byte seed. A seed of another length leaves no
/// account and sets the pending error.
pub fn from_seed(session: &mut Session, seed: &[u8]) -> (r: Option<Handle>)
    requires
        old(session).wf(),
    ensures
        r is Some <==> seed@.len() == SEED_SIZE,
        seed@.len() != SEED_SIZE ==> final(session).errors@ == Some("seed must be 32 bytes"@),
        account_outcome(*old(session), *final(session), r, |a: Account| account_of_seed(a, seed@)),
{
    if seed.len() != SEED_SIZE {
        update_last_error(&mut session.errors, String::from_str("seed must be 32 bytes"));
        return None;
    }
    let account = generate_account(seed_array(seed));
    Some(session.accounts.insert(account))
}

/// The private key text of a held account; `None` for a handle that is not live.
pub fn account_private_key(session: &Session, h: Handle) -> (r: Option<String>)
    requires
        session.wf(),
    ensures
        r is Some ==> account_of_key(session.accounts@[h], r->Some_0@),
        match r {
            Some(s) => session.accounts@.contains_key(h) && s@ == session.accounts@[h].private_key@,
            None => !session.accounts@.contains_key(h),
        },
{
    match session.accounts.get(h) {
        Some(a) => Some(a.private_key.clone()),
        None => None,
    }
}

/// The view key text of a held account; `None` for a handle that is not live.
pub fn account_view_key(session: &Session, h: Handle) -> (r: Option<String>)
    requires
        session.wf(),
    ensures
        r is Some ==> view_key_accepted(r->Some_0@) && r->Some_0@.len() <= BASE58_TEXT_LIMIT,
        match r {
            Some(s) => session.accounts@.contains_key(h) && s@ == session.accounts@[h].view_key@,
            None => !session.accounts@.contains_key(h),
        },
{
    match session.accounts.get(h) {
        Some(a) => Some(a.view_key.clone()),
        None => None,
    }
}

/// The address text of a held account; `None` for a handle that is not live.
pub fn account_address(session: &Session, h: Handle) -> (r: Option<String>)
    requires
        session.wf(),
    ensures
        r is Some ==> r->Some_0@ == address_of(session.accounts@[h].private_key@),
        match r {
            Some(s) => session.accounts@.contains_key(h) && s@ == session.accounts@[h].address@,
            None => !session.accounts@.contains_key(h),
        },
{
    match session.accounts.get(h) {
        Some(a) => Some(a.address.clone()),
        None => None,
    }
}

/// Frees an account. A null handle (`None`) and one that is not live change
/// nothing; otherwise the handle is retired for good. Returns whether an
/// account was freed.
pub fn account_free(session: &mut Session, h: Option<Handle>) -> (r: bool)
    requires
        old(session).wf(),
    ensures
        old(session).steps_to(&*final(session)),
        final(session).records@ == old(session).records@,
        final(session).errors@ == old(session).errors@,
        r == (h is Some && old(session).accounts@.contains_key(h->Some_0)),
        r ==> final(session).accounts@ == old(session).accounts@.remove(h->Some_0)
            && final(session).accounts.retired(h->Some_0),
        !r ==> final(session).accounts@ == old(session).accounts@,
{
    session.accounts.remove(h).is_some()
}

/// Reading the private key of an account made by `from_sk` gives back the
/// text it was made from.
pub proof fn law_private_key_round_trip(before: Session, after: Session, h: Handle, sk: Seq<char>)
    requires
        account_outcome(before, after, Some(h), |a: Account| account_of_key(a, sk)),
    ensures
        after.accounts@.contains_key(h),
        after.accounts@[h].private_key@ == sk,
{
    assert(after.accounts@.contains_key(h));
}

/// Two accounts made by `from_seed` from the same seed have the same private
/// key, view key and address.
pub proof fn law_seed_determinism(a: Account, b: Account, seed: Seq<u8>)
    requires
        account_of_seed(a, seed),
        account_of_seed(b, seed),
    ensures
        a.private_key@ == b.private_key@,
        a.view_key@ == b.view_key@,
        a.address@ == b.address@,
{
}

/// The private key text of an account made by `from_seed` is one that
/// `from_sk` accepts, and the account it makes from it has the same address
/// and view key.
pub proof fn law_seed_account_rederived(a: Account, b: Account, seed: Seq<u8>)
    requires
        account_of_seed(a, seed),
        account_of_key(b, a.private_key@),
    ensures
        a.private_key@.len() <= BASE58_TEXT_LIMIT && private_key_accepted(a.private_key@),
        b.address@ == a.address@,
        b.view_key@ == a.view_key@,
{
}

} // verus!
