//! Declarations and wrappers for the outside crates that the library calls.
//! Verus believes the contracts written here; each one states only what the
//! outside crate's source or documentation shows.

use std::time::{SystemTime, UNIX_EPOCH};

use base64::engine::general_purpose::STANDARD;
use base64::Engine;
use ed25519_dalek::{Signature, Signer, SigningKey, VerifyingKey};
use rusqlite::types::Type;
use rusqlite::{Connection, OptionalExtension};
use uuid::Uuid;
use vstd::prelude::*;

use crate::base64_text::{base64_standard_decode, base64_standard_encode};
use crate::wire::hex_digit;

verus! {

/// A JSON value of `serde_json`; the library only carries it from one message to another.
#[verifier::external_type_specification]
#[verifier::external_body]
pub struct ExJsonValue(serde_json::Value);

/// `Clone` of `serde_json::Value`, used by the derived `Clone` of the protocol messages.
/// Nothing is claimed of the copy.
pub assume_specification[ <serde_json::Value as Clone>::clone ](value: &serde_json::Value) -> serde_json::Value;


/// `base64::Engine::encode` with the `STANDARD` engine. Claimed: the result is the
/// padded standard Base64 of the input.
#[verifier::external_body]
pub(crate) fn base64_encode(bytes: &[u8]) -> (text: String)
    ensures
        text@ == base64_standard_encode(bytes@),
{
    STANDARD.encode(bytes)
}

/// `base64::Engine::decode` with the `STANDARD` engine, its error mapped to `None`.
/// Claimed: the engine accepts exactly the canonical padded standard Base64 of some
/// bytes (its configuration requires canonical padding and rejects non-zero
/// trailing bits), and then returns those bytes.
#[verifier::external_body]
pub(crate) fn base64_decode(text: &str) -> (bytes: Option<Vec<u8>>)
    ensures
        match bytes {
            Some(decoded) => base64_standard_decode(text@) == Some(decoded@),
            None => base64_standard_decode(text@) is None,
        },
{
    STANDARD.decode(text).ok()
}

/// Whether `ed25519_dalek` accepts `signature` as a strict Ed25519 signature of
/// `message` under `public_key`: the key decompresses to a curve point
/// (`VerifyingKey::from_bytes`) and `VerifyingKey::verify_strict` returns `Ok`.
pub uninterp spec fn ed25519_strict_verification(
    public_key: Seq<u8>,
    message: Seq<u8>,
    signature: Seq<u8>,
) -> bool;

/// `ed25519::Signature::from_slice`, returned as its 64 bytes (`Signature::to_bytes`).
/// Claimed, as the source shows: it succeeds exactly on 64-byte input, and the
/// signature's bytes are the input bytes.
#[verifier::external_body]
pub(crate) fn signature_from_slice(bytes: &[u8]) -> (signature: Option<[u8; 64]>)
    ensures
        signature is Some <==> bytes@.len() == 64,
        signature matches Some(signature_bytes) ==> signature_bytes@ == bytes@,
{
    Signature::from_slice(bytes).ok().map(|signature| signature.to_bytes())
}

/// `VerifyingKey::from_bytes` followed by `VerifyingKey::verify_strict` of
/// `ed25519_dalek`; a key that does not decode is a rejection. Claimed: the result
/// is the named verification outcome for these bytes.
#[verifier::external_body]
pub(crate) fn ed25519_verify_strict(public_key: &[u8; 32], message: &[u8], signature: &[u8; 64]) -> (accepted:
    bool)
    ensures
        accepted == ed25519_strict_verification(public_key@, message@, signature@),
{
    match VerifyingKey::from_bytes(public_key) {
        Ok(key) => key.verify_strict(message, &Signature::from_bytes(signature)).is_ok(),
        Err(_) => false,
    }
}

/// The Ed25519 public key that `ed25519_dalek` derives from a 32-byte secret seed
/// (`SigningKey::from_bytes(seed).verifying_key().to_bytes()`).
pub uninterp spec fn ed25519_public_key_of(seed: Seq<u8>) -> Seq<u8>;

/// The deterministic Ed25519 signature that `ed25519_dalek` produces for `message`
/// with the key of `seed` (`SigningKey::from_bytes(seed).sign(message).to_bytes()`).
pub uninterp spec fn ed25519_signature_of(seed: Seq<u8>, message: Seq<u8>) -> Seq<u8>;

/// `SigningKey::from_bytes`, `SigningKey::verifying_key` and `VerifyingKey::to_bytes`
/// of `ed25519_dalek`. Claimed: the result is the named public key of the seed.
#[verifier::external_body]
pub(crate) fn ed25519_public_key(seed: &[u8; 32]) -> (public_key: [u8; 32])
    ensures
        public_key@ == ed25519_public_key_of(seed@),
{
    SigningKey::from_bytes(seed).verifying_key().to_bytes()
}

/// `SigningKey::from_bytes`, `Signer::sign` and `Signature::to_bytes` of
/// `ed25519_dalek`. Claimed: the result is the named signature of the message.
#[verifier::external_body]
pub(crate) fn ed25519_sign(seed: &[u8; 32], message: &[u8]) -> (signature: [u8; 64])
    ensures
        signature@ == ed25519_signature_of(seed@, message@),
{
    SigningKey::from_bytes(seed).sign(message).to_bytes()
}

/// The hyphenated lower-case text of a UUID given by its 128-bit value, as
/// `Uuid`'s `Display` writes it: 8-4-4-4-12 hexadecimal digits, most significant first.
pub open spec fn uuid_hyphenated_text(id: u128) -> Seq<char> {
    let digit = |k: int| hex_digit(((id >> ((31 - k) * 4) as u128) % 16) as u8);
    let digits = |from: int, to: int| Seq::new((to - from) as nat, |i: int| digit(from + i));
    digits(0, 8) + seq!['-'] + digits(8, 12) + seq!['-'] + digits(12, 16) + seq!['-'] + digits(16, 20)
        + seq!['-'] + digits(20, 32)
}

/// The 128-bit value of the UUID that `Uuid::parse_str` reads from a text, or
/// `None` where it refuses the text (it accepts the simple, hyphenated, braced
/// and URN forms).
pub uninterp spec fn uuid_parse_text(text: Seq<char>) -> Option<u128>;

/// `Uuid::from_u128` and its `to_string`. Claimed: the hyphenated text, which
/// `Uuid::parse_str` reads back as the same value.
#[verifier::external_body]
pub(crate) fn uuid_to_text(id: u128) -> (text: String)
    ensures
        text@ == uuid_hyphenated_text(id),
        uuid_parse_text(text@) == Some(id),
{
    Uuid::from_u128(id).to_string()
}

/// `Uuid::parse_str` and `Uuid::as_u128`, its error mapped to `None`. Claimed: the
/// named parse of the text.
#[verifier::external_body]
pub(crate) fn uuid_from_text(text: &str) -> (id: Option<u128>)
    ensures
        id == uuid_parse_text(text@),
{
    Uuid::parse_str(text).ok().map(|uuid| uuid.as_u128())
}

/// `Uuid::new_v4` as its 128-bit value. Nothing is claimed: the value is random.
#[verifier::external_body]
pub(crate) fn random_uuid() -> u128 {
    Uuid::new_v4().as_u128()
}

/// A connection to an SQLite database of `rusqlite`, carried opaquely.
#[verifier::external_type_specification]
#[verifier::external_body]
pub struct ExConnection(Connection);

/// An error reported by `rusqlite`, carried opaquely.
#[verifier::external_type_specification]
#[verifier::external_body]
pub struct ExSqliteError(rusqlite::Error);

/// `Connection::open`. Nothing is claimed: the outcome depends on the file system.
#[verifier::external_body]
pub(crate) fn sqlite_open(path: &str) -> Result<Connection, rusqlite::Error> {
    Connection::open(path)
}

/// `Connection::open_in_memory`. Nothing is claimed of the outcome.
#[verifier::external_body]
pub(crate) fn sqlite_open_in_memory() -> Result<Connection, rusqlite::Error> {
    Connection::open_in_memory()
}

/// `Connection::execute_batch`. Nothing is claimed: the outcome depends on the database.
#[verifier::external_body]
pub(crate) fn sqlite_execute_batch(connection: &Connection, sql: &str) -> Result<(), rusqlite::Error> {
    connection.execute_batch(sql)
}

/// `Connection::execute` with one text parameter. Nothing is claimed of the outcome.
#[verifier::external_body]
pub(crate) fn sqlite_execute_1(connection: &Connection, sql: &str, first: &str) -> Result<usize, rusqlite::Error> {
    connection.execute(sql, (first,))
}

/// `Connection::execute` with two text parameters. Nothing is claimed of the outcome.
#[verifier::external_body]
pub(crate) fn sqlite_execute_2(connection: &Connection, sql: &str, first: &str, second: &str) -> Result<
    usize,
    rusqlite::Error,
> {
    connection.execute(sql, (first, second))
}

/// `Connection::execute` with three text parameters and one integer. Nothing is
/// claimed of the outcome.
#[verifier::external_body]
pub(crate) fn sqlite_execute_4(
    connection: &Connection,
    sql: &str,
    first: &str,
    second: &str,
    third: &str,
    fourth: i64,
) -> Result<usize, rusqlite::Error> {
    connection.execute(sql, (first, second, third, fourth))
}

/// `Connection::query_row` with one text parameter, reading three text columns and
/// one integer column, and `OptionalExtension::optional` (no row is `Ok(None)`).
/// Nothing is claimed: the row is what the database holds.
#[verifier::external_body]
pub(crate) fn sqlite_query_row_3_text_1_integer(connection: &Connection, sql: &str, key: &str) -> Result<
    Option<(String, String, String, i64)>,
    rusqlite::Error,
> {
    connection.query_row(sql, (key,), |row| Ok((row.get(0)?, row.get(1)?, row.get(2)?, row.get(3)?))).optional()
}

/// `Connection::query_row` with one text parameter, reading one text column, and
/// `OptionalExtension::optional`. Nothing is claimed of the outcome.
#[verifier::external_body]
pub(crate) fn sqlite_query_text(connection: &Connection, sql: &str, key: &str) -> Result<Option<String>, rusqlite::Error> {
    connection.query_row(sql, (key,), |row| row.get(0)).optional()
}

/// `rusqlite::Error::InvalidColumnType` for a text column whose stored value the
/// library cannot read.
#[verifier::external_body]
pub(crate) fn sqlite_invalid_text_column(column: usize, column_name: &str) -> rusqlite::Error {
    rusqlite::Error::InvalidColumnType(column, column_name.to_owned(), Type::Text)
}

/// `rusqlite::Error::QueryReturnedNoRows`.
#[verifier::external_body]
pub(crate) fn sqlite_no_rows() -> rusqlite::Error {
    rusqlite::Error::QueryReturnedNoRows
}

/// A reading of the system clock (`std::time::SystemTime`), carried opaquely.
#[verifier::external_type_specification]
#[verifier::external_body]
pub struct ExSystemTime(SystemTime);

/// `SystemTime::now`. Nothing is claimed: the value is the clock's reading.
#[verifier::external_body]
pub(crate) fn system_time_now() -> SystemTime {
    SystemTime::now()
}

/// `SystemTime::duration_since(UNIX_EPOCH)` in milliseconds (`Duration::as_millis`),
/// `None` for a time before the epoch. Nothing is claimed of the value.
#[verifier::external_body]
pub(crate) fn millis_since_unix_epoch(time: &SystemTime) -> Option<u128> {
    time.duration_since(UNIX_EPOCH).ok().map(|elapsed| elapsed.as_millis())
}

/// `String::push`: appends one character.
#[verifier::external_body]
pub(crate) fn push_char(text: &mut String, c: char)
    ensures
        final(text)@ == old(text)@.push(c),
{
    text.push(c)
}

} // verus!
