//! Transactions are built in two steps. The library checks and decodes the
//! caller's inputs into a prepared request; the ledger library's prover runs
//! outside it, since it asserts on its own proofs and a request it cannot
//! prove aborts instead of failing; and the library turns the prover's
//! outcome into the hex text or the pending error.
use vstd::prelude::*;
use crate::account::seed_array;
use crate::c_error::update_last_error;
use crate::handle::Handle;
use crate::ledger::{
    address_accepted, check_address, derive_account, hex_decode, hex_encode, hex_spells, hex_text,
    hex_well_formed, private_key_accepted, BASE58_TEXT_LIMIT, SEED_SIZE,
};
use vstd::string::StrSliceExecFns;
use crate::session::Session;

verus! {

/// The checked inputs of a coinbase transaction.
pub struct CoinbaseInputs {
    pub recipient: String,
    pub value: i64,
    pub seed: [u8; 32],
}

/// The checked and decoded inputs of a transfer transaction.
pub struct TransferInputs {
    pub record: Vec<u8>,
    pub proof_one: Vec<u8>,
    pub proof_two: Vec<u8>,
    pub private_key: String,
    pub recipient: String,
    pub amount: i64,
    pub fee: i64,
}

/// Which stage of building a transfer failed in the ledger library.
pub enum TransferFailure {
    /// A ledger proof's bytes were refused, with the ledger library's message.
    Proof(String),
    Request,
    Execute,
    Finalize,
}

/// The message left pending for a failed transfer stage.
pub open spec fn transfer_failure_message(f: TransferFailure) -> Seq<char> {
    match f {
        TransferFailure::Proof(m) => m@,
        TransferFailure::Request => "could not create transfer request"@,
        TransferFailure::Execute => "could not execute transaction"@,
        TransferFailure::Finalize => "could not finalize transaction"@,
    }
}

/// A step that leaves the held objects as they were: either it succeeds with
/// the error slot untouched, or it fails and an error is pending.
pub open spec fn checked_step(before: Session, after: Session, ok: bool) -> bool {
    &&& after.wf()
    &&& after.accounts == before.accounts
    &&& after.records == before.records
    &&& ok ==> after.errors@ == before.errors@
    &&& !ok ==> after.errors@ is Some
}

/// Checks the inputs of a coinbase transaction that issues `val` base units
/// to `addr`, its randomness drawn from a 32-byte seed. A malformed address or
/// a seed of another length gives nothing and sets the pending error.
pub fn new_coinbase_transaction(
    session: &mut Session,
    addr: &str,
    val: i64,
    randomness: &[u8],
) -> (r: Option<CoinbaseInputs>)
    requires
        old(session).wf(),
    ensures
        r is Some <==> address_accepted(addr@) && randomness@.len() == SEED_SIZE,
        r is Some ==> {
            &&& r->Some_0.recipient@ == addr@
            &&& r->Some_0.value == val
            &&& r->Some_0.seed@ == randomness@
        },
        address_accepted(addr@) && randomness@.len() != SEED_SIZE ==> final(session).errors@
            == Some("randomness must be 32 bytes"@),
        checked_step(*old(session), *final(session), r is Some),
{
    if let Err(msg) = check_address(addr) {
        update_last_error(&mut session.errors, msg);
        return None;
    }
    if randomness.len() != SEED_SIZE {
        update_last_error(&mut session.errors, String::from_str("randomness must be 32 bytes"));
        return None;
    }
    Some(CoinbaseInputs { recipient: addr.to_string(), value: val, seed: seed_array(randomness) })
}

/// Turns the ledger library's coinbase outcome into the transaction's hex
/// text, or into the pending error that carries its message.
pub fn finish_coinbase(session: &mut Session, outcome: Result<Vec<u8>, String>) -> (r: Option<
    String,
>)
    requires
        old(session).wf(),
    ensures
        checked_step(*old(session), *final(session), r is Some),
        match outcome {
            Ok(b) => r is Some && r->Some_0@ == hex_text(b@),
            Err(m) => r is None && final(session).errors@ == Some(m@),
        },
{
    match outcome {
        Ok(bytes) => Some(hex_encode(bytes.as_slice())),
        Err(msg) => {
            update_last_error(&mut session.errors, msg);
            None
        },
    }
}

/// Decodes a hex-encoded ledger proof, setting the pending error when the
/// text is not hex.
fn read_ledger_proof(session: &mut Session, text: &str) -> (r: Option<Vec<u8>>)
    requires
        old(session).wf(),
    ensures
        r is Some <==> hex_well_formed(text@),
        r is Some ==> hex_spells(text@, r->Some_0@),
        checked_step(*old(session), *final(session), r is Some),
{
    match hex_decode(text) {
        Ok(b) => Some(b),
        Err(msg) => {
            update_last_error(&mut session.errors, msg);
            None
        },
    }
}

/// Checks and decodes the inputs of a transfer that spends the held record
/// `in_record`, proven in the ledger by two hex-encoded ledger proofs, sending
/// `amount` base units to `address` for `fee`, signed with the sender's
/// private key text. A record handle that is not live, a malformed key,
/// address or proof text gives nothing and sets the pending error.
pub fn new_transfer_transaction(
    session: &mut Session,
    in_record: Handle,
    ledger_proof_one: &str,
    ledger_proof_two: &str,
    private_key: &str,
    amount: i64,
    fee: i64,
    address: &str,
) -> (r: Option<TransferInputs>)
    requires
        old(session).wf(),
    ensures
        r is Some <==> {
            &&& old(session).records@.contains_key(in_record)
            &&& private_key@.len() <= BASE58_TEXT_LIMIT
            &&& private_key_accepted(private_key@)
            &&& address_accepted(address@)
            &&& hex_well_formed(ledger_proof_one@)
            &&& hex_well_formed(ledger_proof_two@)
        },
        r is Some ==> {
            &&& r->Some_0.record@ == old(session).records@[in_record].bytes@
            &&& hex_spells(ledger_proof_one@, r->Some_0.proof_one@)
            &&& hex_spells(ledger_proof_two@, r->Some_0.proof_two@)
            &&& r->Some_0.private_key@ == private_key@
            &&& r->Some_0.recipient@ == address@
            &&& r->Some_0.amount == amount
            &&& r->Some_0.fee == fee
        },
        !old(session).records@.contains_key(in_record) ==> final(session).errors@ == Some(
            "record handle is not live"@,
        ),
        old(session).records@.contains_key(in_record) && private_key@.len() > BASE58_TEXT_LIMIT
            ==> final(session).errors@ == Some("private key text is too long"@),
        checked_step(*old(session), *final(session), r is Some),
{
    let record = match session.records.get(in_record) {
        Some(rec) => rec.bytes.clone(),
        None => {
            update_last_error(&mut session.errors, String::from_str("record handle is not live"));
            return None;
        },
    };
    if private_key.unicode_len() > BASE58_TEXT_LIMIT {
        update_last_error(&mut session.errors, String::from_str("private key text is too long"));
        return None;
    }
    if let Err(msg) = derive_account(private_key) {
        update_last_error(&mut session.errors, msg);
        return None;
    }
    if let Err(msg) = check_address(address) {
        update_last_error(&mut session.errors, msg);
        return None;
    }
    let proof_one = match read_ledger_proof(session, ledger_proof_one) {
        Some(b) => b,
        None => return None,
    };
    let proof_two = match read_ledger_proof(session, ledger_proof_two) {
        Some(b) => b,
        None => return None,
    };
    Some(
        TransferInputs {
            record,
            proof_one,
            proof_two,
            private_key: private_key.to_string(),
            recipient: address.to_string(),
            amount,
            fee,
        },
    )
}

/// Turns the ledger library's transfer outcome into the transaction's hex
/// text, or into the pending error of the stage that failed.
pub fn finish_transfer(session: &mut Session, outcome: Result<Vec<u8>, TransferFailure>) -> (r:
    Option<String>)
    requires
        old(session).wf(),
    ensures
        checked_step(*old(session), *final(session), r is Some),
        match outcome {
            Ok(b) => r is Some && r->Some_0@ == hex_text(b@),
            Err(f) => r is None && final(session).errors@ == Some(transfer_failure_message(f)),
        },
{
    match outcome {
        Ok(bytes) => Some(hex_encode(bytes.as_slice())),
        Err(failure) => {
            let msg = match failure {
                TransferFailure::Proof(m) => m,
                TransferFailure::Request => String::from_str("could not create transfer request"),
                TransferFailure::Execute => String::from_str("could not execute transaction"),
                TransferFailure::Finalize => String::from_str("could not finalize transaction"),
            };
            update_last_error(&mut session.errors, msg);
            None
        },
    }
}

} // verus!
