use vstd::prelude::*;
use crate::account::seed_array;
use crate::c_error::update_last_error;
use crate::handle::Handle;
use crate::ledger::{
    address_accepted, address_text_of, check_address, check_ciphertext, check_view_key,
    ciphertext_accepted, decrypt, decrypted, decrypted_size, input_record_made, new_record,
    plaintext_size_of, read_record, record_from_parts, record_made_from_parts, record_owner_of,
    encrypt_with_seed, reencrypted, record_ciphertext_of, record_commitment_of, record_payload_of, record_program_of,
    record_randomizer_of, record_readable, record_value_of, view_key_accepted, RecordFields,
    BASE58_TEXT_LIMIT, PAYLOAD_SIZE, PLAINTEXT_SIZE, SEED_SIZE,
};
use vstd::string::StrSliceExecFns;
use crate::session::Session;

verus! {

/// Base units in one credit.
pub const UNITS_PER_CREDIT: i64 = 1_000_000;

/// A record, with the fields callers read and the bytes that stand for it in
/// the ledger library.
pub struct Record {
    pub owner: String,
    pub value: i64,
    pub payload: Vec<u8>,
    pub program_id: String,
    pub randomizer: String,
    pub commitment: String,
    pub ciphertext: String,
    pub bytes: Vec<u8>,
}

/// A byte sequence whose ownership passes to the caller.
pub struct Buffer {
    pub data: Vec<u8>,
}

impl Buffer {
    /// Number of bytes held.
    pub fn len(&self) -> (r: usize)
        ensures
            r == self.data@.len(),
    {
        self.data.len()
    }
}

/// `r` holds the value and the payload given.
pub open spec fn record_holds(r: Record, value: i64, payload: Seq<u8>) -> bool {
    &&& r.value == value
    &&& r.payload@ == payload
}

/// What every held record satisfies: its owner text parses as an address and
/// its payload has the network's size.
pub open spec fn record_sound(r: Record) -> bool {
    &&& address_accepted(r.owner@)
    &&& r.payload@.len() == PAYLOAD_SIZE
}

/// `r` is the record the ledger library holds as `bytes`: it stands for them,
/// and every field is the one they carry.
pub open spec fn record_of_bytes(r: Record, bytes: Seq<u8>) -> bool {
    &&& r.bytes@ == bytes
    &&& r.owner@ == record_owner_of(bytes)
    &&& r.value == record_value_of(bytes)
    &&& r.payload@ == record_payload_of(bytes)
    &&& r.program_id@ == record_program_of(bytes)
    &&& r.randomizer@ == record_randomizer_of(bytes)
    &&& r.commitment@ == record_commitment_of(bytes)
    &&& r.ciphertext@ == record_ciphertext_of(bytes)
    &&& record_sound(r)
}

/// A constructor's outcome on the record table: either a fresh handle to a
/// record that meets `made`, with the error slot untouched, or no handle, the
/// table untouched and an error pending. The account table is untouched.
pub open spec fn record_outcome(
    before: Session,
    after: Session,
    r: Option<Handle>,
    made: spec_fn(Record) -> bool,
) -> bool {
    &&& before.steps_to(&after)
    &&& after.accounts@ == before.accounts@
    &&& match r {
        Some(h) => {
            &&& !before.records@.contains_key(h)
            &&& !before.records.retired(h)
            &&& after.records@ == before.records@.insert(h, after.records@[h])
            &&& made(after.records@[h])
            &&& after.errors@ == before.errors@
        },
        None => {
            &&& after.records@ == before.records@
            &&& after.errors@ is Some
        },
    }
}

/// `credits` in base units, when that fits in an `i64`.
pub open spec fn units_of(credits: i64) -> Option<i64> {
    let u = credits * UNITS_PER_CREDIT;
    if i64::MIN <= u && u <= i64::MAX {
        Some(u as i64)
    } else {
        None
    }
}

/// Converts whole credits to base units; `None` on overflow.
pub fn credits_to_units(credits: i64) -> (r: Option<i64>)
    ensures
        r == units_of(credits),
{
    credits.checked_mul(UNITS_PER_CREDIT)
}

/// Stores the record that the ledger library made, once its fields are read
/// back; sets the pending error when they cannot be.
fn store_record(session: &mut Session, made: Vec<u8>) -> (r: Option<Handle>)
    requires
        old(session).wf(),
    ensures
        r is Some <==> record_readable(made@),
        record_outcome(
            *old(session),
            *final(session),
            r,
            |rec: Record| record_of_bytes(rec, made@),
        ),
{
    match read_record(made.as_slice()) {
        Some(fields) => {
            let RecordFields {
                owner,
                value,
                payload,
                program_id,
                randomizer,
                commitment,
                ciphertext,
            } = fields;
            let record = Record {
                owner,
                value,
                payload,
                program_id,
                randomizer,
                commitment,
                ciphertext,
                bytes: made,
            };
            Some(session.records.insert(record))
        },
        None => {
            update_last_error(&mut session.errors, String::from_str("cannot read the record"));
            None
        },
    }
}

/// Makes a spendable record owned by `addr`, worth `val` credits, carrying a
/// 128-byte `payload`, with its randomness drawn from a 32-byte seed.
/// A malformed address, a seed or payload of another length, or a value too
/// large in base units leaves no record and sets the pending error, as does a
/// refusal of the ledger library.
pub fn new_input_record(
    session: &mut Session,
    addr: &str,
    val: i64,
    payload: &[u8],
    randomness: &[u8],
) -> (r: Option<Handle>)
    requires
        old(session).wf(),
    ensures
        r is Some ==> {
            &&& address_accepted(addr@)
            &&& randomness@.len() == SEED_SIZE
            &&& payload@.len() == PAYLOAD_SIZE
            &&& units_of(val) is Some
        },
        ({
            &&& address_accepted(addr@)
            &&& randomness@.len() == SEED_SIZE
            &&& payload@.len() == PAYLOAD_SIZE
            &&& units_of(val) is Some
            &&& input_record_made(addr@, units_of(val)->Some_0, payload@, randomness@) is Some
        }) ==> r is Some,
        address_accepted(addr@) && randomness@.len() != SEED_SIZE ==> final(session).errors@
            == Some("randomness must be 32 bytes"@),
        address_accepted(addr@) && randomness@.len() == SEED_SIZE && payload@.len()
            != PAYLOAD_SIZE ==> final(session).errors@ == Some("payload must be 128 bytes"@),
        address_accepted(addr@) && randomness@.len() == SEED_SIZE && payload@.len()
            == PAYLOAD_SIZE && units_of(val) is None ==> final(session).errors@ == Some(
            "value is out of range"@,
        ),
        record_outcome(
            *old(session),
            *final(session),
            r,
            |rec: Record|
                {
                    &&& record_holds(rec, units_of(val)->Some_0, payload@)
                    &&& rec.owner@ == address_text_of(addr@)
                    &&& record_sound(rec)
                    &&& record_of_bytes(
                        rec,
                        input_record_made(
                            addr@,
                            units_of(val)->Some_0,
                            payload@,
                            randomness@,
                        )->Some_0,
                    )
                },
        ),
{
    if let Err(msg) = check_address(addr) {
        update_last_error(&mut session.errors, msg);
        return None;
    }
    if randomness.len() != SEED_SIZE {
        update_last_error(&mut session.errors, String::from_str("randomness must be 32 bytes"));
        return None;
    }
    if payload.len() != PAYLOAD_SIZE {
        update_last_error(&mut session.errors, String::from_str("payload must be 128 bytes"));
        return None;
    }
    let units = match credits_to_units(val) {
        Some(u) => u,
        None => {
            update_last_error(&mut session.errors, String::from_str("value is out of range"));
            return None;
        },
    };
    match new_record(addr, units, payload, seed_array(randomness)) {
        Ok(made) => store_record(session, made),
        Err(msg) => {
            update_last_error(&mut session.errors, msg);
            None
        },
    }
}

/// Makes a record owned by `addr` with `val` base units and a 128-byte
/// `payload`, its record key drawn from a generator seeded with `seed`.
/// A malformed address or a payload of another length leaves no record and
/// sets the pending error, as does a refusal of the ledger library.
pub fn from_record(session: &mut Session, addr: &str, val: i64, payload: &[u8], seed: u64) -> (r:
    Option<Handle>)
    requires
        old(session).wf(),
    ensures
        r is Some ==> address_accepted(addr@) && payload@.len() == PAYLOAD_SIZE,
        ({
            &&& address_accepted(addr@)
            &&& payload@.len() == PAYLOAD_SIZE
            &&& record_made_from_parts(addr@, val, payload@, seed) is Some
        }) ==> r is Some,
        address_accepted(addr@) && payload@.len() != PAYLOAD_SIZE ==> final(session).errors@
            == Some("payload must be 128 bytes"@),
        record_outcome(
            *old(session),
            *final(session),
            r,
            |rec: Record|
                {
                    &&& record_holds(rec, val, payload@)
                    &&& rec.owner@ == address_text_of(addr@)
                    &&& record_sound(rec)
                    &&& record_of_bytes(
                        rec,
                        record_made_from_parts(addr@, val, payload@, seed)->Some_0,
                    )
                },
        ),
{
    if let Err(msg) = check_address(addr) {
        update_last_error(&mut session.errors, msg);
        return None;
    }
    if payload.len() != PAYLOAD_SIZE {
        update_last_error(&mut session.errors, String::from_str("payload must be 128 bytes"));
        return None;
    }
    match record_from_parts(addr, val, payload, seed) {
        Ok(made) => store_record(session, made),
        Err(msg) => {
            update_last_error(&mut session.errors, msg);
            None
        },
    }
}

/// The ciphertext text of a held record; `None` for a handle that is not live.
pub fn encrypt_record(session: &Session, h: Handle) -> (r: Option<String>)
    ensures
        match r {
            Some(s) => session.records@.contains_key(h) && s@ == session.records@[h].ciphertext@,
            None => !session.records@.contains_key(h),
        },
{
    match session.records.get(h) {
        Some(rec) => Some(rec.ciphertext.clone()),
        None => None,
    }
}

/// Encrypts the parts of a held record afresh, with a record key drawn from
/// the caller's `seed`: the ciphertext text of the record those parts make
/// with that key. The held record stays as it is. A handle that is not live,
/// or parts the ledger library refuses to encrypt, give nothing and set the
/// pending error.
pub fn encrypt_record_with(session: &mut Session, h: Handle, seed: u64) -> (r: Option<String>)
    requires
        old(session).wf(),
    ensures
        final(session).wf(),
        final(session).accounts == old(session).accounts,
        final(session).records == old(session).records,
        r is Some <==> old(session).records@.contains_key(h) && reencrypted(
            old(session).records@[h].bytes@,
            seed,
        ) is Some,
        r is Some ==> {
            &&& r->Some_0@ == reencrypted(old(session).records@[h].bytes@, seed)->Some_0
            &&& final(session).errors@ == old(session).errors@
        },
        !old(session).records@.contains_key(h) ==> final(session).errors@ == Some(
            "record handle is not live"@,
        ),
        old(session).records@.contains_key(h) && r is None ==> final(session).errors@ == Some(
            "cannot encrypt the record"@,
        ),
{
    let made = match session.records.get(h) {
        Some(rec) => encrypt_with_seed(rec.bytes.as_slice(), seed),
        None => {
            update_last_error(&mut session.errors, String::from_str("record handle is not live"));
            return None;
        },
    };
    if made.is_none() {
        update_last_error(&mut session.errors, String::from_str("cannot encrypt the record"));
    }
    made
}

/// The view key, the ciphertext and what the view key recovers from it are
/// all well formed, so everything turns on whether decryption succeeds.
pub open spec fn decryptable_inputs(ciphertext: Seq<char>, view_key: Seq<char>) -> bool {
    &&& view_key.len() <= BASE58_TEXT_LIMIT
    &&& view_key_accepted(view_key)
    &&& ciphertext_accepted(ciphertext)
}

/// Recovers the record that `ciphertext` encrypts, with `view_key`. A malformed
/// view key or ciphertext leaves no record and sets the pending error; a
/// ciphertext that the view key cannot decrypt leaves no record and the
/// pending error "cannot decrypt ciphertext".
pub fn decrypt_record(session: &mut Session, ciphertext: &str, view_key: &str) -> (r: Option<
    Handle,
>)
    requires
        old(session).wf(),
    ensures
        r is Some ==> decryptable_inputs(ciphertext@, view_key@),
        view_key@.len() > BASE58_TEXT_LIMIT ==> final(session).errors@ == Some(
            "view key text is too long"@,
        ),
        ({
            &&& decryptable_inputs(ciphertext@, view_key@)
            &&& plaintext_size_of(ciphertext@, view_key@) == Some(PLAINTEXT_SIZE)
            &&& decrypted(ciphertext@, view_key@) is Some
            &&& record_readable(decrypted(ciphertext@, view_key@)->Some_0)
        }) ==> r is Some,
        decryptable_inputs(ciphertext@, view_key@) && (plaintext_size_of(ciphertext@, view_key@)
            != Some(PLAINTEXT_SIZE) || decrypted(ciphertext@, view_key@) is None) ==> {
            &&& r is None
            &&& final(session).errors@ == Some("cannot decrypt ciphertext"@)
        },
        record_outcome(
            *old(session),
            *final(session),
            r,
            |rec: Record|
                {
                    &&& decrypted(ciphertext@, view_key@) is Some
                    &&& record_of_bytes(rec, decrypted(ciphertext@, view_key@)->Some_0)
                },
        ),
{
    if view_key.unicode_len() > BASE58_TEXT_LIMIT {
        update_last_error(&mut session.errors, String::from_str("view key text is too long"));
        return None;
    }
    if let Err(msg) = check_view_key(view_key) {
        update_last_error(&mut session.errors, msg);
        return None;
    }
    if let Err(msg) = check_ciphertext(ciphertext) {
        update_last_error(&mut session.errors, msg);
        return None;
    }
    let sized = match decrypted_size(ciphertext, view_key) {
        Some(n) => n == PLAINTEXT_SIZE,
        None => false,
    };
    let made = if sized {
        decrypt(ciphertext, view_key)
    } else {
        None
    };
    match made {
        Some(made) => store_record(session, made),
        None => {
            update_last_error(&mut session.errors, String::from_str("cannot decrypt ciphertext"));
            None
        },
    }
}

/// The owner's address text of a held record.
pub fn record_owner(session: &Session, h: Handle) -> (r: Option<String>)
    requires
        session.wf(),
    ensures
        r is Some ==> address_accepted(r->Some_0@),
        match r {
            Some(s) => session.records@.contains_key(h) && s@ == session.records@[h].owner@,
            None => !session.records@.contains_key(h),
        },
{
    match session.records.get(h) {
        Some(rec) => Some(rec.owner.clone()),
        None => None,
    }
}

/// The value, in base units, of a held record.
pub fn record_value(session: &Session, h: Handle) -> (r: Option<i64>)
    ensures
        match r {
            Some(v) => session.records@.contains_key(h) && v == session.records@[h].value,
            None => !session.records@.contains_key(h),
        },
{
    match session.records.get(h) {
        Some(rec) => Some(rec.value),
        None => None,
    }
}

/// A copy of the payload of a held record, for the caller to own.
pub fn record_payload(session: &Session, h: Handle) -> (r: Option<Buffer>)
    requires
        session.wf(),
    ensures
        r is Some ==> r->Some_0.data@.len() == PAYLOAD_SIZE,
        match r {
            Some(b) => session.records@.contains_key(h) && b.data@ == session.records@[h].payload@,
            None => !session.records@.contains_key(h),
        },
{
    match session.records.get(h) {
        Some(rec) => Some(Buffer { data: rec.payload.clone() }),
        None => None,
    }
}

/// The commitment randomness text of a held record.
pub fn record_commitment_randomness(session: &Session, h: Handle) -> (r: Option<String>)
    ensures
        match r {
            Some(s) => session.records@.contains_key(h) && s@ == session.records@[h].randomizer@,
            None => !session.records@.contains_key(h),
        },
{
    match session.records.get(h) {
        Some(rec) => Some(rec.randomizer.clone()),
        None => None,
    }
}

/// The commitment text of a held record.
pub fn record_commitment(session: &Session, h: Handle) -> (r: Option<String>)
    ensures
        match r {
            Some(s) => session.records@.contains_key(h) && s@ == session.records@[h].commitment@,
            None => !session.records@.contains_key(h),
        },
{
    match session.records.get(h) {
        Some(rec) => Some(rec.commitment.clone()),
        None => None,
    }
}

/// The program id text of a held record.
pub fn record_program_id(session: &Session, h: Handle) -> (r: Option<String>)
    ensures
        match r {
            Some(s) => session.records@.contains_key(h) && s@ == session.records@[h].program_id@,
            None => !session.records@.contains_key(h),
        },
{
    match session.records.get(h) {
        Some(rec) => Some(rec.program_id.clone()),
        None => None,
    }
}

/// Frees a record. A null handle (`None`) and one that is not live change
/// nothing; otherwise the handle is retired for good. Returns whether a
/// record was freed.
pub fn record_free(session: &mut Session, h: Option<Handle>) -> (r: bool)
    requires
        old(session).wf(),
    ensures
        old(session).steps_to(&*final(session)),
        final(session).accounts@ == old(session).accounts@,
        final(session).errors@ == old(session).errors@,
        r == (h is Some && old(session).records@.contains_key(h->Some_0)),
        r ==> final(session).records@ == old(session).records@.remove(h->Some_0)
            && final(session).records.retired(h->Some_0),
        !r ==> final(session).records@ == old(session).records@,
{
    session.records.remove(h).is_some()
}

/// Records that stand for the same bytes agree in every field, so a
/// constructor given equal inputs (and equal randomness) gives equal records.
pub proof fn law_record_determined_by_bytes(a: Record, b: Record, bytes: Seq<u8>)
    requires
        record_of_bytes(a, bytes),
        record_of_bytes(b, bytes),
    ensures
        a.bytes@ == b.bytes@,
        a.owner@ == b.owner@,
        a.value == b.value,
        a.payload@ == b.payload@,
        a.program_id@ == b.program_id@,
        a.randomizer@ == b.randomizer@,
        a.commitment@ == b.commitment@,
        a.ciphertext@ == b.ciphertext@,
{
}

} // verus!
