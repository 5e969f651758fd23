//! Keys, signatures and digests: secp256k1 ECDSA through `k256`, SHA-256 and
//! RIPEMD-160, and the Base58 text form of byte strings.
//!
//! The digests, the curve arithmetic and the Base58 conversion are not
//! defined here. Each has a name as a specification function, and the
//! functions of this module state their results over those names.

use crate::wallet::address::{lemma_raw_address_reads_back, reads_as};
use k256::ecdsa::signature::Signer;
use k256::ecdsa::signature::Verifier;
use k256::ecdsa::{Signature, SigningKey, VerifyingKey};
use k256::sha2;
use rand_core::OsRng;
use ripemd::{Digest, Ripemd160};
use vstd::prelude::*;
use vstd::string::StringExecFns;

verus! {

pub const SHA256_DIGEST_LENGTH: usize = 32;

pub const RIPEMD160_DIGEST_LENGTH: usize = 20;

pub const CHECKSUM_LENGTH: usize = 4;

/// Why a key or a signature was refused.
#[derive(Clone, Copy, Debug, PartialEq, Eq, Structural)]
pub enum KeyError {
    /// The bytes are not a private scalar of the curve.
    InvalidScalar,
    /// The bytes are not a SEC1 encoding of a point of the curve.
    InvalidPublicKey,
    /// The bytes are not two scalars `r` and `s` in the range of the curve.
    InvalidSignature,
    /// The signing operation itself reported a failure.
    SigningFailed,
}

impl KeyError {
    /// The line that tells the user of the failure: the same for every kind.
    pub fn message(&self) -> (text: String)
        ensures
            text@ == "signature error"@,
    {
        String::from_str("signature error")
    }
}

// ---------------------------------------------------------------------------
// Named results of the outside primitives
// ---------------------------------------------------------------------------

/// The SHA-256 digest of a byte string.
pub uninterp spec fn sha256_digest(input: Seq<u8>) -> [u8; 32];

/// The RIPEMD-160 digest of a byte string.
pub uninterp spec fn ripemd160_digest(input: Seq<u8>) -> [u8; 20];

/// The Base58 text (Bitcoin alphabet) of a byte string.
pub uninterp spec fn base58_text(bytes: Seq<u8>) -> Seq<char>;

/// What Base58 decoding makes of a text: the bytes that it stands for, or
/// the description of the decoder's refusal.
pub uninterp spec fn base58_decoding(text: Seq<char>) -> Result<Seq<u8>, Seq<char>>;

/// The SEC1 encoding, compressed or not, of the public point that belongs to
/// a private key.
pub uninterp spec fn sec1_public_key(private_key: Seq<u8>, compress: bool) -> Seq<u8>;

/// The deterministic (RFC 6979) ECDSA signature of `message` under
/// `private_key`, `r` followed by `s`; `None` where the signing operation
/// fails.
pub uninterp spec fn ecdsa_signature(private_key: Seq<u8>, message: Seq<u8>) -> Option<Seq<u8>>;

/// Whether `public_key` is the SEC1 encoding of a point that can be used to
/// verify signatures.
pub uninterp spec fn is_sec1_public_key(public_key: Seq<u8>) -> bool;

/// Whether `signature` is a valid ECDSA signature of `message` under
/// `public_key`.
pub uninterp spec fn ecdsa_accepts(public_key: Seq<u8>, signature: Seq<u8>, message: Seq<u8>) -> bool;

// ---------------------------------------------------------------------------
// Specifications
// ---------------------------------------------------------------------------

/// The first four bytes of the SHA-256 digest of the SHA-256 digest of `input`.
pub open spec fn checksum4(input: Seq<u8>) -> Seq<u8> {
    sha256_digest(sha256_digest(input)@)@.subrange(0, 4)
}

/// The RIPEMD-160 digest of the SHA-256 digest of `input`.
pub open spec fn hash160(input: Seq<u8>) -> Seq<u8> {
    ripemd160_digest(sha256_digest(input)@)@
}

/// The bytes of an address: the version byte, the public key hash, and the
/// checksum of the two.
pub open spec fn raw_address(prefix: u8, hash: Seq<u8>) -> Seq<u8> {
    let payload = seq![prefix] + hash;
    payload + checksum4(payload)
}

/// The text of an address: the Base58 text of its bytes.
pub open spec fn address_text(prefix: u8, hash: Seq<u8>) -> Seq<char> {
    base58_text(raw_address(prefix, hash))
}

/// The number that `bytes` spell in base 256, most significant byte first.
pub open spec fn big_endian(bytes: Seq<u8>) -> nat
    decreases bytes.len(),
{
    if bytes.len() == 0 {
        0
    } else {
        big_endian(bytes.drop_last()) * 256 + bytes.last() as nat
    }
}

/// The order of the group of points of secp256k1.
pub open spec fn secp256k1_order() -> nat {
    0xFFFFFFFFFFFFFFFFFFFFFFFFFFFFFFFEBAAEDCE6AF48A03BBFD25E8CD0364141nat
}

/// A scalar in the range `1..n`, written in exactly 32 bytes.
pub open spec fn is_scalar(bytes: Seq<u8>) -> bool {
    bytes.len() == 32 && 0 < big_endian(bytes) < secp256k1_order()
}

/// A private key: 24 to 32 bytes that spell a number in the range `1..n`.
/// Shorter keys count as padded with zero bytes in front.
pub open spec fn valid_private_key(bytes: Seq<u8>) -> bool {
    24 <= bytes.len() <= 32 && 0 < big_endian(bytes) < secp256k1_order()
}

/// The fixed-width form of a signature: 64 bytes, `r` then `s`, both scalars
/// in the range `1..n`.
pub open spec fn is_signature_encoding(signature: Seq<u8>) -> bool {
    signature.len() == 64 && is_scalar(signature.subrange(0, 32)) && is_scalar(
        signature.subrange(32, 64),
    )
}

/// The form of an encoded public point: 33 bytes that begin with 2 or 3 if
/// compressed, 65 bytes that begin with 4 if not.
pub open spec fn has_sec1_form(key: Seq<u8>, compress: bool) -> bool {
    if compress {
        key.len() == 33 && (key[0] == 2 || key[0] == 3)
    } else {
        key.len() == 65 && key[0] == 4
    }
}

/// A character of the Bitcoin Base58 alphabet: digits and letters without
/// `0`, `O`, `I` and `l`.
pub open spec fn is_base58_char(c: char) -> bool {
    ||| '1' <= c <= '9'
    ||| 'A' <= c <= 'H'
    ||| 'J' <= c <= 'N'
    ||| 'P' <= c <= 'Z'
    ||| 'a' <= c <= 'k'
    ||| 'm' <= c <= 'z'
}

/// A text made of characters of the Base58 alphabet; the empty text is one.
pub open spec fn is_base58_text(text: Seq<char>) -> bool {
    forall|i: int| 0 <= i < text.len() ==> is_base58_char(#[trigger] text[i])
}

/// What `get_pub_key` returns for a key, given the encoded point that
/// belongs to it.
pub open spec fn public_key_result(private_key: Seq<u8>, point: Seq<u8>) -> Result<
    Seq<u8>,
    KeyError,
> {
    if valid_private_key(private_key) {
        Ok(point)
    } else {
        Err(KeyError::InvalidScalar)
    }
}

/// What `sign` returns for a key, given what the signing operation gives
/// for that key and the message.
pub open spec fn signing_result(private_key: Seq<u8>, signed: Option<Seq<u8>>) -> Result<
    Seq<u8>,
    KeyError,
> {
    if !valid_private_key(private_key) {
        Err(KeyError::InvalidScalar)
    } else {
        match signed {
            Some(signature) => Ok(signature),
            None => Err(KeyError::SigningFailed),
        }
    }
}

/// What `verify_signature` returns: the public key is examined first, then
/// the signature, then the signature is checked against the message.
pub open spec fn verification_result(
    public_key: Seq<u8>,
    signature: Seq<u8>,
    message: Seq<u8>,
) -> Result<bool, KeyError> {
    if !is_sec1_public_key(public_key) {
        Err(KeyError::InvalidPublicKey)
    } else if !is_signature_encoding(signature) {
        Err(KeyError::InvalidSignature)
    } else {
        Ok(ecdsa_accepts(public_key, signature, message))
    }
}

/// Whether Base58 decoding reads `text` as `bytes`.
pub open spec fn decodes_to(text: Seq<char>, bytes: Seq<u8>) -> bool {
    base58_decoding(text) == Ok::<Seq<u8>, Seq<char>>(bytes)
}

/// The view of what decoding returned.
pub open spec fn decoding_view(r: Result<Vec<u8>, String>) -> Result<Seq<u8>, Seq<char>> {
    match r {
        Ok(bytes) => Ok(bytes@),
        Err(description) => Err(description@),
    }
}

/// The view of a result that carries bytes.
pub open spec fn bytes_result(r: Result<Vec<u8>, KeyError>) -> Result<Seq<u8>, KeyError> {
    match r {
        Ok(bytes) => Ok(bytes@),
        Err(e) => Err(e),
    }
}

// ---------------------------------------------------------------------------
// Calls into the outside crates
// ---------------------------------------------------------------------------

/// Calls `sha2::Sha256` (`new`, `update`, `finalize`) on `input`. The contract
/// gives the digest the name `sha256_digest(input)`.
#[verifier::external_body]
fn sha256_of(input: &[u8]) -> (digest: [u8; 32])
    ensures
        digest == sha256_digest(input@),
{
    let mut hasher = sha2::Sha256::new();
    hasher.update(input);
    hasher.finalize().into()
}

/// Calls `ripemd::Ripemd160` (`new`, `update`, `finalize`) on `input`. The
/// contract gives the digest the name `ripemd160_digest(input)`.
#[verifier::external_body]
fn ripemd160(input: &[u8]) -> (digest: [u8; 20])
    ensures
        digest == ripemd160_digest(input@),
{
    let mut hasher = Ripemd160::new();
    hasher.update(input);
    hasher.finalize().into()
}

/// Calls `bs58::encode(..).into_string()`. The contract names the text, and
/// claims that it is made of alphabet characters only and that it stands for
/// the bytes it was made from: decoding it gives them back.
#[verifier::external_body]
pub(crate) fn base58_encode(bytes: &[u8]) -> (encoded: String)
    ensures
        encoded@ == base58_text(bytes@),
        is_base58_text(encoded@),
        decodes_to(encoded@, bytes@),
{
    bs58::encode(bytes).into_string()
}

/// Calls `bs58::decode(..).into_vec()`. The contract names the outcome, the
/// error taken as its description, and claims that decoding fails exactly on
/// a text with a character outside the alphabet: the only errors that the
/// decoder has when it writes to a vector.
#[verifier::external_body]
pub(crate) fn base58_decode(text: &str) -> (r: Result<Vec<u8>, String>)
    ensures
        r is Ok <==> is_base58_text(text@),
        decoding_view(r) == base58_decoding(text@),
{
    bs58::decode(text).into_vec().map_err(|e| e.to_string())
}

/// Calls `SigningKey::random` with the operating system's generator and
/// `SigningKey::to_bytes`. The contract claims what holds of every key that
/// can come back: 32 bytes that spell a scalar in the range `1..n`. The call
/// does not return if the operating system has no random bytes to give.
#[verifier::external_body]
fn random_signing_key() -> (key: Vec<u8>)
    ensures
        key@.len() == 32,
        valid_private_key(key@),
{
    let sk = SigningKey::random(&mut OsRng);
    sk.to_bytes().into_iter().collect()
}

/// Calls `SigningKey::from_slice`, `VerifyingKey::from` and
/// `VerifyingKey::to_encoded_point`. The contract claims that the key is
/// accepted exactly when it is a `valid_private_key`, names the encoded
/// point, and claims the length and the first byte that SEC1 gives it.
#[verifier::external_body]
fn public_key_of(private_key: &[u8], compress: bool) -> (r: Option<Vec<u8>>)
    ensures
        r is Some <==> valid_private_key(private_key@),
        r matches Some(key) ==> key@ == sec1_public_key(private_key@, compress),
        r matches Some(key) ==> has_sec1_form(key@, compress),
{
    let signing_key = SigningKey::from_slice(private_key).ok()?;
    let verifying_key = VerifyingKey::from(signing_key);
    Some(verifying_key.to_encoded_point(compress).as_bytes().to_vec())
}

/// Calls `SigningKey::from_slice`, `Signer::try_sign` and
/// `Signature::to_vec`. The contract claims that the key is refused exactly
/// when it is no `valid_private_key`, and names what signing gives otherwise,
/// which depends on the key and the message alone. It also claims that a
/// signature comes in the fixed-width form, both halves in range.
#[verifier::external_body]
fn ecdsa_sign(private_key: &[u8], data: &[u8]) -> (r: Result<Vec<u8>, KeyError>)
    ensures
        bytes_result(r) == signing_result(private_key@, ecdsa_signature(private_key@, data@)),
        r matches Ok(signature) ==> is_signature_encoding(signature@),
{
    let signing_key = match SigningKey::from_slice(private_key) {
        Ok(key) => key,
        Err(_) => return Err(KeyError::InvalidScalar),
    };
    let signed: Result<Signature, _> = signing_key.try_sign(data);
    match signed {
        Ok(signature) => Ok(signature.to_vec()),
        Err(_) => Err(KeyError::SigningFailed),
    }
}

/// Calls `VerifyingKey::from_sec1_bytes`. The contract names whether the
/// bytes are accepted.
#[verifier::external_body]
fn parses_as_public_key(public_key: &[u8]) -> (ok: bool)
    ensures
        ok == is_sec1_public_key(public_key@),
{
    VerifyingKey::from_sec1_bytes(public_key).is_ok()
}

/// Calls `Signature::try_from` on a slice. The contract claims that it
/// accepts exactly the 64-byte strings whose halves are scalars in the range
/// `1..n`.
#[verifier::external_body]
fn parses_as_signature(signature: &[u8]) -> (ok: bool)
    ensures
        ok == is_signature_encoding(signature@),
{
    Signature::try_from(signature).is_ok()
}

/// Calls `Verifier::verify` of the key on the message and the signature,
/// after parsing both. The contract names whether the signature is accepted.
#[verifier::external_body]
fn ecdsa_verify(public_key: &[u8], signature: &[u8], data: &[u8]) -> (ok: bool)
    requires
        is_sec1_public_key(public_key@),
        is_signature_encoding(signature@),
    ensures
        ok == ecdsa_accepts(public_key@, signature@, data@),
{
    let parsed = VerifyingKey::from_sec1_bytes(public_key).ok().zip(
        Signature::try_from(signature).ok(),
    );
    match parsed {
        Some((key, sig)) => key.verify(data, &sig).is_ok(),
        None => false,
    }
}

// ---------------------------------------------------------------------------
// The key manager
// ---------------------------------------------------------------------------

/// A fresh private key from the operating system's random source.
pub fn generate_signing_key() -> (key: Vec<u8>)
    ensures
        key@.len() == 32,
        valid_private_key(key@),
{
    random_signing_key()
}

/// The public key of `private_key` in SEC1 form, compressed if `compress`.
pub fn get_pub_key(private_key: &[u8], compress: bool) -> (r: Result<Vec<u8>, KeyError>)
    ensures
        bytes_result(r) == public_key_result(
            private_key@,
            sec1_public_key(private_key@, compress),
        ),
        r matches Ok(key) ==> has_sec1_form(key@, compress),
{
    match public_key_of(private_key, compress) {
        Some(key) => Ok(key),
        None => Err(KeyError::InvalidScalar),
    }
}

/// `SHA256(SHA256(input))[0..4]`.
pub fn get_checksum(input: &[u8]) -> (checksum: [u8; 4])
    ensures
        checksum@ == checksum4(input@),
{
    let first = sha256_of(input);
    let second = sha256_of(first.as_slice());
    let checksum: [u8; 4] = [second[0], second[1], second[2], second[3]];
    checksum
}

/// The address of the public key hash `pubkey_hash` under the version byte
/// `prefix`. Decoding the address gives the hash back.
pub fn address_from_hash(prefix: u8, pubkey_hash: &[u8; 20]) -> (address: String)
    ensures
        address@ == address_text(prefix, pubkey_hash@),
        reads_as(address@, pubkey_hash@),
{
    let mut address = add_prefix(prefix, pubkey_hash.as_slice());
    let checksum = get_checksum(address.as_slice());
    address.extend_from_slice(checksum.as_slice());
    assert(address@ =~= raw_address(prefix, pubkey_hash@));
    proof {
        lemma_raw_address_reads_back(prefix, pubkey_hash@);
    }
    base58_encode(address.as_slice())
}

/// The address of the public key `pub_key` under the version byte `prefix`.
pub fn get_address(pub_key: &[u8], prefix: u8) -> (address: String)
    ensures
        address@ == address_text(prefix, hash160(pub_key@)),
        reads_as(address@, hash160(pub_key@)),
{
    let pubkey_hash = get_pubkey_hash(pub_key);
    address_from_hash(prefix, &pubkey_hash)
}

/// The ECDSA signature of `data` under `private_key`.
pub fn sign(private_key: &[u8], data: &[u8]) -> (r: Result<Vec<u8>, KeyError>)
    ensures
        bytes_result(r) == signing_result(private_key@, ecdsa_signature(private_key@, data@)),
        r matches Ok(signature) ==> is_signature_encoding(signature@),
{
    ecdsa_sign(private_key, data)
}

/// Whether `signature` is a signature of `data` under `pubkey`, or why one
/// of the two could not be read.
pub fn verify_signature(pubkey: &[u8], signature: &[u8], data: &[u8]) -> (r: Result<bool, KeyError>)
    ensures
        r == verification_result(pubkey@, signature@, data@),
{
    if !parses_as_public_key(pubkey) {
        return Err(KeyError::InvalidPublicKey);
    }
    if !parses_as_signature(signature) {
        return Err(KeyError::InvalidSignature);
    }
    Ok(ecdsa_verify(pubkey, signature, data))
}

/// The SHA-256 digest of `input`.
pub fn sha256(input: &[u8]) -> (digest: [u8; 32])
    ensures
        digest == sha256_digest(input@),
{
    sha256_of(input)
}

/// `RIPEMD160(SHA256(pub_key))`.
pub fn get_pubkey_hash(pub_key: &[u8]) -> (hash: [u8; 20])
    ensures
        hash@ == hash160(pub_key@),
{
    let digest = sha256_of(pub_key);
    ripemd160(digest.as_slice())
}

/// `slice` with `prefix` in front.
pub fn add_prefix(prefix: u8, slice: &[u8]) -> (result: Vec<u8>)
    ensures
        result@ == seq![prefix] + slice@,
{
    let mut result: Vec<u8> = Vec::new();
    result.push(prefix);
    result.extend_from_slice(slice);
    result
}

} // verus!
