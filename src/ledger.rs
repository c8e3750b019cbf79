//! The calls this library makes into the ledger library, the seeded random
//! number generators, and hex encoding, each with the contract relied upon.
use vstd::prelude::*;
use rand::SeedableRng;
use snarkvm_algorithms::EncryptionScheme;
use snarkvm_utilities::{FromBytes, ToBytes};
use rand::rngs::StdRng;
use rand_chacha::ChaChaRng;
use snarkvm_dpc::network::testnet2::Testnet2;
use snarkvm_dpc::{
    Account as LedgerAccount, Address, AleoAmount, Network, Payload, PrivateKey,
    Record as LedgerRecord, ViewKey,
};
use std::str::FromStr;
use crate::account::Account;

verus! {

#[verifier::external_type_specification]
#[verifier::external_body]
pub struct ExTestnet2(Testnet2);

/// The network every object of this library belongs to.
pub type Net = Testnet2;

/// Whether `Address::from_str` accepts the text.
pub uninterp spec fn address_accepted(text: Seq<char>) -> bool;

/// Whether `PrivateKey::from_str` accepts the text.
pub uninterp spec fn private_key_accepted(text: Seq<char>) -> bool;

/// The view key text of the account whose private key text is given.
pub uninterp spec fn view_key_of(private_key: Seq<char>) -> Seq<char>;

/// The address text of the account whose private key text is given.
pub uninterp spec fn address_of(private_key: Seq<char>) -> Seq<char>;

/// The private key text of the account drawn from a generator seeded with `seed`.
pub uninterp spec fn private_key_from_seed(seed: Seq<u8>) -> Seq<char>;

/// Longest key text handed to the base58 decoder. `from_base58` fills a
/// 132-byte buffer, and each digit after the leading `'1'`s adds less than
/// a byte, so a text of at most this many characters cannot make it slice out
/// of range.
pub const BASE58_TEXT_LIMIT: usize = 132;

/// Relies on `PrivateKey::from_str` and `Account::from`: the text is accepted
/// exactly when it is a base58 string of the key's 43 bytes, and printing the
/// parsed key encodes those same bytes again, so the text comes back as given.
#[verifier::external_body]
pub(crate) fn derive_account(text: &str) -> (r: Result<Account, String>)
    requires
        text@.len() <= BASE58_TEXT_LIMIT,
    ensures
        r is Ok <==> private_key_accepted(text@),
        r is Ok ==> r->Ok_0.private_key@ == text@,
        r is Ok ==> r->Ok_0.view_key@ == view_key_of(text@),
        r is Ok ==> r->Ok_0.address@ == address_of(text@),
        r is Ok ==> view_key_accepted(r->Ok_0.view_key@),
        r is Ok ==> r->Ok_0.view_key@.len() <= BASE58_TEXT_LIMIT,
{
    match PrivateKey::<Net>::from_str(text) {
        Ok(key) => {
            let account = LedgerAccount::<Net>::from(key);
            Ok(Account {
                private_key: account.private_key().to_string(),
                view_key: account.view_key().to_string(),
                address: account.address().to_string(),
            })
        },
        Err(e) => Err(e.to_string()),
    }
}

/// Relies on `Account::new` with `StdRng::from_seed`: the generator is
/// determined by the seed, and the account is `Account::from` of a private key
/// whose printed text (base58 of 43 bytes, at most 59 characters)
/// `PrivateKey::from_str` accepts again; the view key prints the same way.
#[verifier::external_body]
pub(crate) fn generate_account(seed: [u8; 32]) -> (r: Account)
    ensures
        private_key_accepted(r.private_key@),
        r.private_key@.len() <= BASE58_TEXT_LIMIT,
        view_key_accepted(r.view_key@),
        r.view_key@.len() <= BASE58_TEXT_LIMIT,
        r.private_key@ == private_key_from_seed(seed@),
        r.view_key@ == view_key_of(r.private_key@),
        r.address@ == address_of(r.private_key@),
{
    let mut rng = StdRng::from_seed(seed);
    let account = LedgerAccount::<Net>::new(&mut rng);
    Account {
        private_key: account.private_key().to_string(),
        view_key: account.view_key().to_string(),
        address: account.address().to_string(),
    }
}

/// Whether `ViewKey::from_str` accepts the text.
pub uninterp spec fn view_key_accepted(text: Seq<char>) -> bool;

/// Whether the network's record ciphertext type accepts the text.
pub uninterp spec fn ciphertext_accepted(text: Seq<char>) -> bool;

/// The value, in base units, of the record whose bytes are given.
pub uninterp spec fn record_value_of(bytes: Seq<u8>) -> i64;

/// The payload of the record whose bytes are given.
pub uninterp spec fn record_payload_of(bytes: Seq<u8>) -> Seq<u8>;

/// The text that the address parsed from `text` by `Address::from_str` prints.
pub uninterp spec fn address_text_of(text: Seq<char>) -> Seq<char>;

/// The owner's address text of the record whose bytes are given.
pub uninterp spec fn record_owner_of(bytes: Seq<u8>) -> Seq<char>;

/// The program id text of the record whose bytes are given.
pub uninterp spec fn record_program_of(bytes: Seq<u8>) -> Seq<char>;

/// The commitment randomness text of the record whose bytes are given.
pub uninterp spec fn record_randomizer_of(bytes: Seq<u8>) -> Seq<char>;

/// The commitment text of the record whose bytes are given.
pub uninterp spec fn record_commitment_of(bytes: Seq<u8>) -> Seq<char>;

/// The ciphertext text of the record whose bytes are given.
pub uninterp spec fn record_ciphertext_of(bytes: Seq<u8>) -> Seq<char>;

/// Whether `Record::from_bytes_le` accepts the bytes.
pub uninterp spec fn record_readable(bytes: Seq<u8>) -> bool;

/// The bytes of the record that `Record::new` makes from these inputs, if it
/// makes one.
pub uninterp spec fn input_record_made(
    owner: Seq<char>,
    value: i64,
    payload: Seq<u8>,
    seed: Seq<u8>,
) -> Option<Seq<u8>>;

/// The bytes of the record that `Record::from` makes from these inputs and a
/// record key drawn from `seed`, if it makes one.
pub uninterp spec fn record_made_from_parts(
    owner: Seq<char>,
    value: i64,
    payload: Seq<u8>,
    seed: u64,
) -> Option<Seq<u8>>;

/// The length of the plaintext that the view key recovers from the
/// ciphertext, if it recovers one.
pub uninterp spec fn plaintext_size_of(ciphertext: Seq<char>, view_key: Seq<char>) -> Option<usize>;

/// The bytes of the record that `Record::decrypt` recovers, if it recovers one.
pub uninterp spec fn decrypted(ciphertext: Seq<char>, view_key: Seq<char>) -> Option<Seq<u8>>;

/// Length of a record's plaintext on this network: a tag byte, the owner's
/// 32 bytes, the 8-byte value, the payload and the 48-byte program id.
pub const PLAINTEXT_SIZE: usize = 217;

/// Size in bytes of a record's payload on this network.
pub const PAYLOAD_SIZE: usize = 128;

/// Size in bytes of a generator seed.
pub const SEED_SIZE: usize = 32;

/// What `read_record` finds in a record's bytes.
pub struct RecordFields {
    pub owner: String,
    pub value: i64,
    pub payload: Vec<u8>,
    pub program_id: String,
    pub randomizer: String,
    pub commitment: String,
    pub ciphertext: String,
}

/// Relies on `Record::new` (with `StdRng::from_seed`, `Payload::from_bytes_le`
/// and the noop program): the record keeps the value and the payload, and its
/// bytes (`ToBytes`) carry them and read back (`FromBytes` rebuilds the record
/// with `Record::from` from the same parts).
#[verifier::external_body]
pub(crate) fn new_record(owner: &str, value: i64, payload: &[u8], seed: [u8; 32]) -> (r: Result<
    Vec<u8>,
    String,
>)
    requires
        payload@.len() == PAYLOAD_SIZE,
    ensures
        !address_accepted(owner@) ==> r is Err,
        r is Ok <==> input_record_made(owner@, value, payload@, seed@) is Some,
        r is Ok ==> r->Ok_0@ == input_record_made(owner@, value, payload@, seed@)->Some_0,
        r is Ok ==> record_readable(r->Ok_0@),
        r is Ok ==> record_owner_of(r->Ok_0@) == address_text_of(owner@),
        r is Ok ==> record_value_of(r->Ok_0@) == value,
        r is Ok ==> record_payload_of(r->Ok_0@) == payload@,
{
    let owner = Address::<Net>::from_str(owner).map_err(|e| e.to_string())?;
    let payload = Payload::<Net>::from_bytes_le(payload).map_err(|e| e.to_string())?;
    let amount = AleoAmount(value);
    let program = *<Net as Network>::noop_program_id();
    let mut rng = StdRng::from_seed(seed);
    let record = LedgerRecord::new(owner, amount, payload, program, &mut rng);
    record.map_err(|e| e.to_string())?.to_bytes_le().map_err(|e| e.to_string())
}

/// Relies on `Record::from` with a record key that the account encryption
/// scheme draws from `ChaChaRng::seed_from_u64(seed)`: the record keeps the
/// value and the payload, and its bytes carry them and read back.
#[verifier::external_body]
pub(crate) fn record_from_parts(owner: &str, value: i64, payload: &[u8], seed: u64) -> (r: Result<
    Vec<u8>,
    String,
>)
    requires
        payload@.len() == PAYLOAD_SIZE,
    ensures
        !address_accepted(owner@) ==> r is Err,
        r is Ok <==> record_made_from_parts(owner@, value, payload@, seed) is Some,
        r is Ok ==> r->Ok_0@ == record_made_from_parts(owner@, value, payload@, seed)->Some_0,
        r is Ok ==> record_readable(r->Ok_0@),
        r is Ok ==> record_owner_of(r->Ok_0@) == address_text_of(owner@),
        r is Ok ==> record_value_of(r->Ok_0@) == value,
        r is Ok ==> record_payload_of(r->Ok_0@) == payload@,
{
    let owner = Address::<Net>::from_str(owner).map_err(|e| e.to_string())?;
    let payload = Payload::<Net>::from_bytes_le(payload).map_err(|e| e.to_string())?;
    let rng = &mut ChaChaRng::seed_from_u64(seed);
    let scheme = <Net as Network>::account_encryption_scheme();
    let (_, randomizer, key) = scheme.generate_asymmetric_key(&*owner, rng);
    let program = *<Net as Network>::noop_program_id();
    LedgerRecord::from(owner, AleoAmount(value), payload, program, randomizer.into(), key.into())
        .map_err(|e| e.to_string())?.to_bytes_le().map_err(|e| e.to_string())
}

/// The ciphertext text of the record that `Record::from` makes from the
/// parts of the record held as `bytes`, with a new record key drawn from
/// `seed`, if it makes one.
pub uninterp spec fn reencrypted(bytes: Seq<u8>, seed: u64) -> Option<Seq<char>>;

/// Relies on `Record::from_bytes_le`, the account encryption scheme's
/// `generate_asymmetric_key` with `ChaChaRng::seed_from_u64(seed)`, and
/// `Record::from` on the parts read.
#[verifier::external_body]
pub(crate) fn encrypt_with_seed(bytes: &[u8], seed: u64) -> (r: Option<String>)
    ensures
        r is Some <==> reencrypted(bytes@, seed) is Some,
        r is Some ==> r->Some_0@ == reencrypted(bytes@, seed)->Some_0,
{
    let record = LedgerRecord::<Net>::from_bytes_le(bytes).ok()?;
    let rng = &mut ChaChaRng::seed_from_u64(seed);
    let owner = record.owner();
    let scheme = <Net as Network>::account_encryption_scheme();
    let (_, randomizer, key) = scheme.generate_asymmetric_key(&*owner, rng);
    let (value, payload, program) = (record.value(), record.payload().clone(), record.program_id());
    let made = LedgerRecord::from(owner, value, payload, program, randomizer.into(), key.into());
    Some(made.ok()?.ciphertext().to_string())
}

/// Relies on `ViewKey::from_str`.
#[verifier::external_body]
pub(crate) fn check_view_key(text: &str) -> (r: Result<(), String>)
    requires
        text@.len() <= BASE58_TEXT_LIMIT,
    ensures
        r is Ok <==> view_key_accepted(text@),
{
    ViewKey::<Net>::from_str(text).map(|_| ()).map_err(|e| e.to_string())
}

/// Relies on `FromStr` of the network's record ciphertext type.
#[verifier::external_body]
pub(crate) fn check_ciphertext(text: &str) -> (r: Result<(), String>)
    ensures
        r is Ok <==> ciphertext_accepted(text@),
{
    <Net as Network>::RecordCiphertext::from_str(text).map(|_| ()).map_err(|e| e.to_string())
}

/// Relies on `RecordCiphertext::to_plaintext` with the decryption key of a
/// view key: `None` when the ciphertext was not made for that view key.
#[verifier::external_body]
pub(crate) fn decrypted_size(ciphertext: &str, view_key: &str) -> (r: Option<usize>)
    requires
        ciphertext_accepted(ciphertext@),
        view_key_accepted(view_key@),
        view_key@.len() <= BASE58_TEXT_LIMIT,
    ensures
        r == plaintext_size_of(ciphertext@, view_key@),
{
    let key = ViewKey::<Net>::from_str(view_key).ok()?;
    let ciphertext = <Net as Network>::RecordCiphertext::from_str(ciphertext).ok()?;
    let (plaintext, _) = ciphertext.to_plaintext(&(&key).into()).ok()?;
    Some(plaintext.len())
}

/// Relies on `Record::decrypt` with the decryption key of a view key, and the
/// record's `ToBytes`. `Record::decrypt` asserts that the plaintext has the
/// record's length, hence the `requires`.
#[verifier::external_body]
pub(crate) fn decrypt(ciphertext: &str, view_key: &str) -> (r: Option<Vec<u8>>)
    requires
        ciphertext_accepted(ciphertext@),
        view_key_accepted(view_key@),
        view_key@.len() <= BASE58_TEXT_LIMIT,
        plaintext_size_of(ciphertext@, view_key@) == Some(PLAINTEXT_SIZE),
    ensures
        r is Some <==> decrypted(ciphertext@, view_key@) is Some,
        r is Some ==> r->Some_0@ == decrypted(ciphertext@, view_key@)->Some_0,
{
    let key = ViewKey::<Net>::from_str(view_key).ok()?;
    let ciphertext = <Net as Network>::RecordCiphertext::from_str(ciphertext).ok()?;
    let record = LedgerRecord::decrypt(&(&key).into(), &ciphertext).ok()?;
    record.to_bytes_le().ok()
}

/// Relies on `Record::from_bytes_le` and the record's getters: value and
/// payload are what the bytes carry, the payload is always `PAYLOAD_SIZE`
/// bytes, and the owner prints as an address text that parses again.
#[verifier::external_body]
pub(crate) fn read_record(bytes: &[u8]) -> (r: Option<RecordFields>)
    ensures
        r is Some <==> record_readable(bytes@),
        r is Some ==> r->Some_0.owner@ == record_owner_of(bytes@),
        r is Some ==> r->Some_0.program_id@ == record_program_of(bytes@),
        r is Some ==> r->Some_0.randomizer@ == record_randomizer_of(bytes@),
        r is Some ==> r->Some_0.commitment@ == record_commitment_of(bytes@),
        r is Some ==> r->Some_0.ciphertext@ == record_ciphertext_of(bytes@),
        r is Some ==> r->Some_0.value == record_value_of(bytes@),
        r is Some ==> r->Some_0.payload@ == record_payload_of(bytes@),
        r is Some ==> r->Some_0.payload@.len() == PAYLOAD_SIZE,
        r is Some ==> address_accepted(r->Some_0.owner@),
{
    let record = LedgerRecord::<Net>::from_bytes_le(bytes).ok()?;
    Some(RecordFields {
        owner: record.owner().to_string(),
        value: record.value().0,
        payload: record.payload().to_bytes_le().ok()?,
        program_id: record.program_id().to_string(),
        randomizer: record.randomizer().to_string(),
        commitment: record.commitment().to_string(),
        ciphertext: record.ciphertext().to_string(),
    })
}

/// Relies on `Address::from_str`.
#[verifier::external_body]
pub(crate) fn check_address(text: &str) -> (r: Result<(), String>)
    ensures
        r is Ok <==> address_accepted(text@),
{
    Address::<Net>::from_str(text).map(|_| ()).map_err(|e| e.to_string())
}

/// The lower-case hex digit of a value below 16.
pub open spec fn hex_digit(n: u8) -> char {
    if n == 0 { '0' } else if n == 1 { '1' } else if n == 2 { '2' } else if n == 3 { '3' }
    else if n == 4 { '4' } else if n == 5 { '5' } else if n == 6 { '6' } else if n == 7 { '7' }
    else if n == 8 { '8' } else if n == 9 { '9' } else if n == 10 { 'a' } else if n == 11 { 'b' }
    else if n == 12 { 'c' } else if n == 13 { 'd' } else if n == 14 { 'e' } else { 'f' }
}

/// Two lower-case hex digits per byte, the high half first.
pub open spec fn hex_text(bytes: Seq<u8>) -> Seq<char> {
    Seq::new(
        2 * bytes.len(),
        |i: int|
            if i % 2 == 0 {
                hex_digit(bytes[i / 2] / 16)
            } else {
                hex_digit(bytes[i / 2] % 16)
            },
    )
}

/// The value of a hex digit of either case.
pub open spec fn hex_value(c: char) -> Option<u8> {
    if '0' <= c && c <= '9' {
        Some((c as u32 - '0' as u32) as u8)
    } else if 'a' <= c && c <= 'f' {
        Some((c as u32 - 'a' as u32 + 10) as u8)
    } else if 'A' <= c && c <= 'F' {
        Some((c as u32 - 'A' as u32 + 10) as u8)
    } else {
        None
    }
}

/// An even number of hex digits.
pub open spec fn hex_well_formed(text: Seq<char>) -> bool {
    &&& text.len() % 2 == 0
    &&& forall|i: int| 0 <= i < text.len() ==> (#[trigger] hex_value(text[i])) is Some
}

/// `bytes` is what `text` spells, two digits per byte, high half first.
pub open spec fn hex_spells(text: Seq<char>, bytes: Seq<u8>) -> bool {
    &&& text.len() == 2 * bytes.len()
    &&& forall|i: int|
        0 <= i < bytes.len() ==> #[trigger] bytes[i] == 16 * hex_value(text[2 * i])->Some_0
            + hex_value(text[2 * i + 1])->Some_0
}

/// Relies on `hex::encode`.
#[verifier::external_body]
pub(crate) fn hex_encode(bytes: &[u8]) -> (r: String)
    ensures
        r@ == hex_text(bytes@),
{
    hex::encode(bytes)
}

/// Relies on `hex::decode`: digits of either case, in pairs.
#[verifier::external_body]
pub(crate) fn hex_decode(text: &str) -> (r: Result<Vec<u8>, String>)
    ensures
        r is Ok <==> hex_well_formed(text@),
        r is Ok ==> hex_spells(text@, r->Ok_0@),
{
    hex::decode(text).map_err(|e| e.to_string())
}

} // verus!
