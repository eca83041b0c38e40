//! Key exchange (P-256 Diffie-Hellman), key derivation (SHA-256), AES-256-GCM
//! encryption and Base64, as the server uses them to protect request and
//! response bodies.
//!
//! Public keys are held as their uncompressed SEC1 encoding (65 bytes) and
//! secret keys as their 32-byte scalar; the outside crates parse them back
//! where they are used.
use vstd::prelude::*;
use vstd::utf8::{decode_utf8, encode_utf8, valid_utf8};

use aes_gcm::aead::rand_core::RngCore;
use aes_gcm::aead::{Aead, OsRng};
use aes_gcm::{Aes256Gcm, Key, KeyInit, Nonce};
use base64::engine::general_purpose::STANDARD;
use base64::Engine;
use p256::ecdh::diffie_hellman;
use p256::elliptic_curve::sec1::ToEncodedPoint;
use p256::pkcs8::DecodePublicKey;
use p256::{PublicKey, SecretKey};
use sha2::{Digest, Sha256};

use crate::session_manager::{add_session, SessionInfo, SessionRecord, SessionStore};
use crate::session_id::fresh_session_id;

verus! {

/// The request that opens a key exchange.
#[derive(Debug)]
pub struct KeyExchangeRequest {
    pub public_key: String,
    pub client_id: String,
}

/// The server's answer to a key exchange: its public key and the session
/// id. The shared secret itself is not sent; the client derives it.
#[derive(Debug)]
pub struct KeyExchangeResponse {
    pub public_key: String,
    pub session_id: String,
}

/// A request to encrypt `data` under a session.
#[derive(Debug)]
pub struct EncryptRequest {
    pub session_id: String,
    pub data: String,
}

/// Encrypted data and its nonce, both in Base64.
#[derive(Debug)]
pub struct EncryptResponse {
    pub encrypted_data: String,
    pub nonce: String,
}

/// A request to decrypt data under a session.
#[derive(Debug)]
pub struct DecryptRequest {
    pub session_id: String,
    pub encrypted_data: String,
    pub nonce: String,
}

/// Decrypted data.
#[derive(Debug)]
pub struct DecryptResponse {
    pub decrypted_data: String,
}

/// An error message.
#[derive(Debug)]
pub struct ErrorResponse {
    pub error: String,
}

/// The answer to a health check.
#[derive(Debug)]
pub struct HealthResponse {
    pub status: String,
    pub message: String,
}

/// A list of sessions.
#[derive(Debug)]
pub struct SessionsResponse {
    pub sessions: Vec<SessionSummary>,
}

/// One session, with its public keys in Base64.
#[derive(Debug)]
pub struct SessionSummary {
    pub session_id: String,
    pub client_public_key: String,
    pub server_public_key: String,
}

/// Plaintexts longer than this (2^36 bytes) are refused by AES-GCM.
pub const AES_GCM_MAX_PLAINTEXT: u64 = 0x10_0000_0000;

/// The bytes of the text "e2e_encryption_key", appended to the shared secret
/// before it is hashed into the AES key.
pub const KDF_LABEL: [u8; 18] = [
    101u8, 50u8, 101u8, 95u8, 101u8, 110u8, 99u8, 114u8, 121u8, 112u8, 116u8, 105u8, 111u8, 110u8,
    95u8, 107u8, 101u8, 121u8,
];

/// Standard Base64 (with padding) of `data`, as `base64`'s `STANDARD.encode` gives it.
pub uninterp spec fn base64_encoding(data: Seq<u8>) -> Seq<char>;

/// What `base64`'s `STANDARD.decode` gives for `input`: the bytes, or the text of its error.
pub uninterp spec fn base64_decoding(input: Seq<u8>) -> Result<Seq<u8>, Seq<char>>;

/// The SHA-256 digest of `data`.
pub uninterp spec fn sha256_digest(data: Seq<u8>) -> Seq<u8>;

/// AES-256-GCM encryption of `plaintext` (no associated data), the 16-byte tag appended.
pub uninterp spec fn aes256gcm_sealed(key: Seq<u8>, nonce: Seq<u8>, plaintext: Seq<u8>) -> Seq<u8>;

/// AES-256-GCM decryption of `ciphertext`; `None` when the tag does not match.
pub uninterp spec fn aes256gcm_opened(key: Seq<u8>, nonce: Seq<u8>, ciphertext: Seq<u8>) -> Option<
    Seq<u8>,
>;

/// The P-256 public key that the X.509 (SubjectPublicKeyInfo) DER `der`
/// encodes, in uncompressed SEC1 form; `None` when it encodes none.
pub uninterp spec fn p256_key_from_der(der: Seq<u8>) -> Option<Seq<u8>>;

/// The P-256 public key that the SEC1 bytes encode, in uncompressed SEC1
/// form; `None` when they encode none.
pub uninterp spec fn p256_key_from_sec1(bytes: Seq<u8>) -> Option<Seq<u8>>;

/// The P-256 public key (uncompressed SEC1) of a secret scalar; `None` when
/// the bytes are not a valid scalar.
pub uninterp spec fn p256_public_key_of(secret: Seq<u8>) -> Option<Seq<u8>>;

/// The P-256 Diffie-Hellman shared secret (the x-coordinate, 32 bytes) of a
/// secret scalar and a public key; `None` when the bytes are not such keys.
pub uninterp spec fn p256_ecdh(secret: Seq<u8>, public: Seq<u8>) -> Option<Seq<u8>>;

/// `k` is an uncompressed SEC1 encoding of a P-256 point (65 bytes, tag 4)
/// that `PublicKey::from_sec1_bytes` reads back as itself.
pub open spec fn is_p256_public(k: Seq<u8>) -> bool {
    &&& k.len() == 65
    &&& k[0] == 4u8
    &&& p256_key_from_sec1(k) == Some(k)
}

/// A lowercase hexadecimal digit.
pub open spec fn is_lower_hex(c: char) -> bool {
    ('0' <= c && c <= '9') || ('a' <= c && c <= 'f')
}

/// `s` is the hyphenated lowercase text of a version-4 (random) UUID:
/// 36 characters, hyphens at 8, 13, 18 and 23, lowercase hexadecimal digits
/// elsewhere, the version digit '4' at 14 and the variant digit (8, 9, a
/// or b) at 19.
pub open spec fn is_uuid_v4(s: Seq<char>) -> bool {
    &&& s.len() == 36
    &&& forall|i: int|
        0 <= i < 36 ==> if i == 8 || i == 13 || i == 18 || i == 23 {
            #[trigger] s[i] == '-'
        } else {
            is_lower_hex(s[i])
        }
    &&& s[14] == '4'
    &&& (s[19] == '8' || s[19] == '9' || s[19] == 'a' || s[19] == 'b')
}

/// The view of optional bytes.
pub open spec fn option_bytes(v: Option<Vec<u8>>) -> Option<Seq<u8>> {
    match v {
        Some(b) => Some(b@),
        None => None,
    }
}

/// Diffie-Hellman agreement: every peer whose secret scalar has `public` as
/// its public key, combining that scalar with the public key of `secret`,
/// obtains `shared`, the secret that `secret` and `public` give.
pub open spec fn peers_agree(secret: Seq<u8>, public: Seq<u8>, shared: Option<Seq<u8>>) -> bool {
    forall|peer: Seq<u8>|
        #[trigger] p256_public_key_of(peer) == Some(public) && p256_public_key_of(secret) is Some
            ==> shared is Some && p256_ecdh(peer, p256_public_key_of(secret)->0) == shared
}

/// The text of the error that `String::from_utf8` reports for `bytes`.
pub uninterp spec fn utf8_error_text(bytes: Seq<u8>) -> Seq<char>;

/// The view of a result of bytes.
pub open spec fn bytes_result(r: Result<Vec<u8>, String>) -> Result<Seq<u8>, Seq<char>> {
    match r {
        Ok(v) => Ok(v@),
        Err(e) => Err(e@),
    }
}

/// The view of a result of text.
pub open spec fn text_result(r: Result<String, String>) -> Result<Seq<char>, Seq<char>> {
    match r {
        Ok(v) => Ok(v@),
        Err(e) => Err(e@),
    }
}

/// `r` with `prefix` put before its error message.
pub open spec fn with_error_prefix(r: Result<Seq<u8>, Seq<char>>, prefix: Seq<char>) -> Result<
    Seq<u8>,
    Seq<char>,
> {
    match r {
        Ok(v) => Ok(v),
        Err(e) => Err(prefix + e),
    }
}

/// What `base64_decode` gives for the text `data`.
pub open spec fn decoded_base64(data: Seq<u8>) -> Result<Seq<u8>, Seq<char>> {
    with_error_prefix(base64_decoding(data), "Base64 decode error: "@)
}

/// The public key that the Base64 text `b64` carries, in X.509 DER or else in
/// SEC1 form; otherwise the error that `public_key_from_base64` reports.
pub open spec fn parsed_public_key(b64: Seq<char>) -> Result<Seq<u8>, Seq<char>> {
    match base64_decoding(encode_utf8(b64)) {
        Err(e) => Err("Failed to decode base64: "@ + e),
        Ok(bytes) => match p256_key_from_der(bytes) {
            Some(key) => Ok(key),
            None => match p256_key_from_sec1(bytes) {
                Some(key) => Ok(key),
                None => Err(
                    "Failed to parse public key in both X.509 and SEC1 formats: crypto error"@,
                ),
            },
        },
    }
}

/// Standard Base64 decoding of `input` gives `data`.
pub open spec fn base64_round_trips(input: Seq<u8>, data: Seq<u8>) -> bool {
    base64_decoding(input) == Ok::<Seq<u8>, Seq<char>>(data)
}

/// The successful result that holds `text`.
pub open spec fn ok_text(text: Seq<char>) -> Result<Seq<char>, Seq<char>> {
    Ok(text)
}

/// The AES key derived from a shared secret.
pub open spec fn derived_aes_key(shared_secret: Seq<u8>) -> Seq<u8> {
    sha256_digest(shared_secret + KDF_LABEL@)
}

/// What `decrypt_aes_gcm` gives: the UTF-8 text that the ciphertext holds, or an error.
pub open spec fn decrypted_text(key: Seq<u8>, nonce: Seq<u8>, ciphertext: Seq<u8>) -> Result<
    Seq<char>,
    Seq<char>,
> {
    match aes256gcm_opened(key, nonce, ciphertext) {
        None => Err("Decryption failed: aead::Error"@),
        Some(plain) => if valid_utf8(plain) {
            Ok(decode_utf8(plain))
        } else {
            Err("Failed to convert to UTF-8: "@ + utf8_error_text(plain))
        },
    }
}

/// The error of `encrypt_aes_gcm` for a plaintext that is too long.
pub open spec fn encryption_error() -> Seq<char> {
    "Encryption failed: aead::Error"@
}

// ---------------------------------------------------------------------------
// Calls into the outside crates.

/// Calls `base64::engine::general_purpose::STANDARD.encode`. Claims that the
/// result is the standard Base64 of `data` and that `STANDARD.decode` gives
/// `data` back for its bytes.
#[verifier::external_body]
fn standard_encode(data: &[u8]) -> (res: String)
    ensures
        res@ == base64_encoding(data@),
        base64_round_trips(encode_utf8(res@), data@),
{
    STANDARD.encode(data)
}

/// Calls `base64::engine::general_purpose::STANDARD.decode`, turning its
/// `DecodeError` into the error's text. Claims that the result is the one
/// named by `base64_decoding`.
#[verifier::external_body]
fn standard_decode(input: &[u8]) -> (res: Result<Vec<u8>, String>)
    ensures
        bytes_result(res) == base64_decoding(input@),
{
    match STANDARD.decode(input) {
        Ok(bytes) => Ok(bytes),
        Err(e) => Err(e.to_string()),
    }
}

/// Calls `sha2::Sha256`: `update` with `first`, `update` with `second`, then
/// `finalize`. Claims that the result is the digest of the two joined.
#[verifier::external_body]
fn sha256_of_parts(first: &[u8], second: &[u8]) -> (res: [u8; 32])
    ensures
        res@ == sha256_digest(first@ + second@),
{
    let mut hasher = Sha256::new();
    hasher.update(first);
    hasher.update(second);
    hasher.finalize().into()
}

/// Calls `Aes256Gcm::encrypt` with the key `key` and the 12-byte nonce. Claims
/// that it succeeds exactly for plaintexts of at most 2^36 bytes (the crate's
/// `P_MAX`), that the ciphertext is 16 bytes longer than the plaintext, that
/// it is the one named by `aes256gcm_sealed`, that decrypting it with the same
/// key and nonce gives the plaintext back, and that the error reads
/// "aead::Error".
#[verifier::external_body]
fn aes_gcm_seal(key: &[u8; 32], nonce: &[u8], plaintext: &[u8]) -> (res: Result<Vec<u8>, String>)
    requires
        nonce@.len() == 12,
    ensures
        res is Ok <==> plaintext@.len() <= AES_GCM_MAX_PLAINTEXT,
        res matches Ok(c) ==> {
            &&& c@ == aes256gcm_sealed(key@, nonce@, plaintext@)
            &&& c@.len() == plaintext@.len() + 16
            &&& aes256gcm_opened(key@, nonce@, c@) == Some(plaintext@)
        },
        res matches Err(e) ==> e@ == "aead::Error"@,
{
    let cipher = Aes256Gcm::new(Key::<Aes256Gcm>::from_slice(key));
    match cipher.encrypt(Nonce::from_slice(nonce), plaintext) {
        Ok(c) => Ok(c),
        Err(e) => Err(e.to_string()),
    }
}

/// Calls `Aes256Gcm::decrypt` with the key `key` and the 12-byte nonce.
/// Claims that the result is the one named by `aes256gcm_opened` and that
/// the error reads "aead::Error".
#[verifier::external_body]
fn aes_gcm_open(key: &[u8; 32], nonce: &[u8], ciphertext: &[u8]) -> (res: Result<Vec<u8>, String>)
    requires
        nonce@.len() == 12,
    ensures
        match res {
            Ok(p) => aes256gcm_opened(key@, nonce@, ciphertext@) == Some(p@),
            Err(e) => aes256gcm_opened(key@, nonce@, ciphertext@) is None && e@ == "aead::Error"@,
        },
{
    let cipher = Aes256Gcm::new(Key::<Aes256Gcm>::from_slice(key));
    match cipher.decrypt(Nonce::from_slice(nonce), ciphertext) {
        Ok(p) => Ok(p),
        Err(e) => Err(e.to_string()),
    }
}

/// Calls `OsRng.fill_bytes` (from `aes_gcm::aead`) on the buffer. Claims only
/// that its length stays: the bytes are random.
#[verifier::external_body]
fn fill_random(buf: &mut Vec<u8>)
    ensures
        final(buf)@.len() == old(buf)@.len(),
{
    OsRng.fill_bytes(buf.as_mut_slice())
}

/// Calls `p256::SecretKey::random(&mut OsRng)` and returns its scalar
/// (`to_bytes`). Claims its length, and that `SecretKey::from_slice` takes it
/// back (the scalar is a valid, non-zero one): the value itself is random.
#[verifier::external_body]
fn random_secret_key() -> (res: Vec<u8>)
    ensures
        res@.len() == 32,
        p256_public_key_of(res@) is Some,
{
    SecretKey::random(&mut OsRng).to_bytes().to_vec()
}

/// Calls `p256::SecretKey::from_slice` and `public_key`, encoding the key
/// with `to_encoded_point(false)`. Claims that the result is the one named
/// by `p256_public_key_of`, and that it is an uncompressed SEC1 encoding
/// (65 bytes, tag 4) that `PublicKey::from_sec1_bytes` reads back unchanged.
#[verifier::external_body]
fn public_key_of(secret: &[u8]) -> (res: Option<Vec<u8>>)
    ensures
        match res {
            Some(k) => p256_public_key_of(secret@) == Some(k@) && is_p256_public(k@),
            None => p256_public_key_of(secret@) is None,
        },
{
    match SecretKey::from_slice(secret) {
        Ok(key) => Some(key.public_key().to_encoded_point(false).as_bytes().to_vec()),
        Err(_) => None,
    }
}

/// Calls `p256::PublicKey::from_public_key_der` and encodes the key it finds
/// with `to_encoded_point(false)`. Claims that the result is the one named by
/// `p256_key_from_der`, that a key found is an uncompressed SEC1 encoding
/// that `PublicKey::from_sec1_bytes` reads back unchanged, and that nothing
/// is found unless the input starts with the DER tag of a SEQUENCE (0x30),
/// as a SubjectPublicKeyInfo does.
#[verifier::external_body]
fn key_from_der(der: &[u8]) -> (res: Option<Vec<u8>>)
    ensures
        match res {
            Some(k) => p256_key_from_der(der@) == Some(k@) && is_p256_public(k@),
            None => p256_key_from_der(der@) is None,
        },
        der@.len() == 0 || der@[0] != 0x30u8 ==> res is None,
{
    match PublicKey::from_public_key_der(der) {
        Ok(key) => Some(key.to_encoded_point(false).as_bytes().to_vec()),
        Err(_) => None,
    }
}

/// Calls `p256::PublicKey::from_sec1_bytes` and encodes the key it finds with
/// `to_encoded_point(false)`. Claims that the result is the one named by
/// `p256_key_from_sec1`, that a key found is an uncompressed SEC1 encoding
/// that `PublicKey::from_sec1_bytes` reads back unchanged, and that the error
/// reads "crypto error".
#[verifier::external_body]
fn key_from_sec1(bytes: &[u8]) -> (res: Result<Vec<u8>, String>)
    ensures
        match res {
            Ok(k) => p256_key_from_sec1(bytes@) == Some(k@) && is_p256_public(k@),
            Err(e) => p256_key_from_sec1(bytes@) is None && e@ == "crypto error"@,
        },
{
    match PublicKey::from_sec1_bytes(bytes) {
        Ok(key) => Ok(key.to_encoded_point(false).as_bytes().to_vec()),
        Err(e) => Err(e.to_string()),
    }
}

/// Calls `p256::ecdh::diffie_hellman` on the secret scalar (read with
/// `SecretKey::from_slice`) and the public key (read with
/// `PublicKey::from_sec1_bytes`) and returns `raw_secret_bytes`. Claims that
/// the result is the one named by `p256_ecdh`, 32 bytes long; that it
/// succeeds whenever both reads succeed (`diffie_hellman` itself cannot
/// fail); and the agreement of Diffie-Hellman that the `p256::ecdh`
/// documentation shows: a peer whose secret scalar has `public` as its
/// public key, combining it with the public key of `secret`, gets the same
/// shared secret.
#[verifier::external_body]
fn ecdh_shared_secret(secret: &[u8], public: &[u8]) -> (res: Option<Vec<u8>>)
    ensures
        match res {
            Some(s) => p256_ecdh(secret@, public@) == Some(s@) && s@.len() == 32,
            None => p256_ecdh(secret@, public@) is None,
        },
        p256_public_key_of(secret@) is Some && p256_key_from_sec1(public@) is Some ==> res is Some,
        peers_agree(secret@, public@, option_bytes(res)),
{
    let secret = SecretKey::from_slice(secret).ok()?;
    let public = PublicKey::from_sec1_bytes(public).ok()?;
    Some(diffie_hellman(secret.to_nonzero_scalar(), public.as_affine()).raw_secret_bytes().to_vec())
}

/// Calls `uuid::Uuid::new_v4().to_string()`. Claims only the form of the
/// id (`is_uuid_v4`): `new_v4` sets the version and variant bits of random
/// bits, and `Display` writes the hyphenated lowercase form. The id itself
/// is random.
#[verifier::external_body]
pub(crate) fn new_uuid() -> (res: String)
    ensures
        is_uuid_v4(res@),
{
    uuid::Uuid::new_v4().to_string()
}

/// Calls `String::from_utf8`, turning its error into the error's text. Claims
/// what std documents: it succeeds exactly on valid UTF-8, and then holds the
/// characters that the bytes encode.
#[verifier::external_body]
pub(crate) fn string_from_utf8(bytes: Vec<u8>) -> (res: Result<String, String>)
    ensures
        match res {
            Ok(s) => valid_utf8(bytes@) && s@ == decode_utf8(bytes@),
            Err(e) => !valid_utf8(bytes@) && e@ == utf8_error_text(bytes@),
        },
{
    match String::from_utf8(bytes) {
        Ok(s) => Ok(s),
        Err(e) => Err(e.to_string()),
    }
}

// ---------------------------------------------------------------------------
// The library's functions.

/// `prefix` followed by `message`.
fn prefixed(prefix: &str, message: &str) -> (res: String)
    ensures
        res@ == prefix@ + message@,
{
    let mut res = prefix.to_owned();
    res.append(message);
    res
}

/// A fresh random key pair: the secret scalar (32 bytes) and the uncompressed
/// public key (65 bytes).
pub fn generate_key_pair() -> (res: (Vec<u8>, Vec<u8>))
    ensures
        res.0@.len() == 32,
        res.1@.len() == 65,
        p256_public_key_of(res.0@) == Some(res.1@),
        is_p256_public(res.1@),
{
    let secret = random_secret_key();
    match public_key_of(secret.as_slice()) {
        Some(public) => (secret, public),
        None => {
            assert(false);
            (secret, Vec::new())
        },
    }
}

/// Standard Base64 of `data`.
pub fn base64_encode(data: &[u8]) -> (res: String)
    ensures
        res@ == base64_encoding(data@),
        base64_round_trips(encode_utf8(res@), data@),
{
    standard_encode(data)
}

/// The bytes that the Base64 text `data` encodes.
pub fn base64_decode(data: &str) -> (res: Result<Vec<u8>, String>)
    ensures
        bytes_result(res) == decoded_base64(encode_utf8(data@)),
{
    base64_decode_bytes(data.as_bytes())
}

/// The bytes that the Base64 bytes `data` encode.
pub fn base64_decode_bytes(data: &[u8]) -> (res: Result<Vec<u8>, String>)
    ensures
        bytes_result(res) == decoded_base64(data@),
{
    match standard_decode(data) {
        Ok(bytes) => Ok(bytes),
        Err(e) => Err(prefixed("Base64 decode error: ", e.as_str())),
    }
}

/// The public key carried by the Base64 text `public_key_b64`: X.509 DER is
/// tried first (what Android sends), SEC1 second.
pub fn public_key_from_base64(public_key_b64: &str) -> (res: Result<Vec<u8>, String>)
    ensures
        bytes_result(res) == parsed_public_key(public_key_b64@),
        res matches Ok(k) ==> is_p256_public(k@),
        forall|k: Seq<u8>|
            #[trigger] base64_round_trips(encode_utf8(public_key_b64@), k) && is_p256_public(k) ==> (
            res matches Ok(key) && key@ == k),
{
    let public_key_bytes = match standard_decode(public_key_b64.as_bytes()) {
        Ok(bytes) => bytes,
        Err(e) => {
            return Err(prefixed("Failed to decode base64: ", e.as_str()));
        },
    };
    match key_from_der(public_key_bytes.as_slice()) {
        Some(key) => {
            return Ok(key);
        },
        None => {},
    }
    match key_from_sec1(public_key_bytes.as_slice()) {
        Ok(key) => Ok(key),
        Err(e) => {
            proof {
                reveal_strlit("Failed to parse public key in both X.509 and SEC1 formats: ");
                reveal_strlit("crypto error");
                reveal_strlit("Failed to parse public key in both X.509 and SEC1 formats: crypto error");
                assert("Failed to parse public key in both X.509 and SEC1 formats: "@ + "crypto error"@
                    =~= "Failed to parse public key in both X.509 and SEC1 formats: crypto error"@);
            }
            Err(prefixed("Failed to parse public key in both X.509 and SEC1 formats: ", e.as_str()))
        },
    }
}

/// Base64 of the uncompressed SEC1 encoding of a public key.
pub fn public_key_to_base64(public_key: &[u8]) -> (res: String)
    ensures
        res@ == base64_encoding(public_key@),
        base64_round_trips(encode_utf8(res@), public_key@),
{
    standard_encode(public_key)
}

/// The Diffie-Hellman shared secret of the server's secret scalar and the
/// client's public key.
pub fn derive_shared_secret(server_secret: &[u8], client_public: &[u8]) -> (res: Result<
    Vec<u8>,
    String,
>)
    ensures
        match p256_ecdh(server_secret@, client_public@) {
            Some(s) => res matches Ok(v) && v@ == s,
            None => res matches Err(e) && e@ == "Failed to derive shared secret: invalid key"@,
        },
        p256_public_key_of(server_secret@) is Some && p256_key_from_sec1(client_public@) is Some
            ==> res is Ok,
        peers_agree(server_secret@, client_public@, p256_ecdh(server_secret@, client_public@)),
{
    match ecdh_shared_secret(server_secret, client_public) {
        Some(secret) => Ok(secret),
        None => Err("Failed to derive shared secret: invalid key".to_owned()),
    }
}

/// The AES-256 key of a session: SHA-256 of the shared secret followed by
/// the bytes of "e2e_encryption_key".
pub fn derive_aes_key(shared_secret: &[u8]) -> (res: [u8; 32])
    ensures
        res@ == derived_aes_key(shared_secret@),
{
    let label = KDF_LABEL;
    sha256_of_parts(shared_secret, &label)
}

/// A fresh random 96-bit nonce for AES-GCM.
pub fn generate_nonce() -> (res: Vec<u8>)
    ensures
        res@.len() == 12,
{
    let mut nonce = vec![0u8; 12];
    fill_random(&mut nonce);
    nonce
}

/// Encrypts the UTF-8 bytes of `data` under `key` with the given nonce;
/// returns the ciphertext (tag appended) and the nonce.
pub fn encrypt_aes_gcm_with_nonce(data: &str, key: &[u8; 32], nonce: Vec<u8>) -> (res: Result<
    (Vec<u8>, Vec<u8>),
    String,
>)
    requires
        nonce@.len() == 12,
    ensures
        encode_utf8(data@).len() <= AES_GCM_MAX_PLAINTEXT ==> (res matches Ok((c, n)) && {
            &&& c@ == aes256gcm_sealed(key@, nonce@, encode_utf8(data@))
            &&& n@ == nonce@
        }),
        encode_utf8(data@).len() > AES_GCM_MAX_PLAINTEXT ==> (res matches Err(e) && e@
            == encryption_error()),
        res matches Ok((c, n)) ==> decrypted_text(key@, n@, c@) == ok_text(data@),
        res matches Ok((c, n)) ==> c@.len() == encode_utf8(data@).len() + 16,
{
    proof {
        vstd::utf8::encode_utf8_decode_utf8(data@);
        vstd::utf8::encode_utf8_valid_utf8(data@);
    }
    let plaintext = data.as_bytes();
    match aes_gcm_seal(key, nonce.as_slice(), plaintext) {
        Ok(ciphertext) => Ok((ciphertext, nonce)),
        Err(e) => {
            proof {
                reveal_strlit("Encryption failed: ");
                reveal_strlit("aead::Error");
                reveal_strlit("Encryption failed: aead::Error");
                assert("Encryption failed: "@ + "aead::Error"@ =~= encryption_error());
            }
            Err(prefixed("Encryption failed: ", e.as_str()))
        },
    }
}

/// Encrypts the UTF-8 bytes of `data` under `key` with a fresh random nonce;
/// returns the ciphertext (tag appended) and the nonce.
pub fn encrypt_aes_gcm(data: &str, key: &[u8; 32]) -> (res: Result<(Vec<u8>, Vec<u8>), String>)
    ensures
        res is Ok <==> encode_utf8(data@).len() <= AES_GCM_MAX_PLAINTEXT,
        res matches Ok((c, n)) ==> {
            &&& n@.len() == 12
            &&& c@ == aes256gcm_sealed(key@, n@, encode_utf8(data@))
            &&& c@.len() == encode_utf8(data@).len() + 16
            &&& decrypted_text(key@, n@, c@) == ok_text(data@)
        },
        res matches Err(e) ==> e@ == encryption_error(),
{
    let nonce_bytes = generate_nonce();
    encrypt_aes_gcm_with_nonce(data, key, nonce_bytes)
}

/// Decrypts `encrypted_data` under `key` and the 12-byte `nonce`, and reads
/// the plaintext as UTF-8.
pub fn decrypt_aes_gcm(encrypted_data: &[u8], nonce: &[u8], key: &[u8; 32]) -> (res: Result<
    String,
    String,
>)
    requires
        nonce@.len() == 12,
    ensures
        text_result(res) == decrypted_text(key@, nonce@, encrypted_data@),
{
    match aes_gcm_open(key, nonce, encrypted_data) {
        Ok(plaintext) => match string_from_utf8(plaintext) {
            Ok(text) => Ok(text),
            Err(e) => Err(prefixed("Failed to convert to UTF-8: ", e.as_str())),
        },
        Err(e) => {
            proof {
                reveal_strlit("Decryption failed: ");
                reveal_strlit("aead::Error");
                reveal_strlit("Decryption failed: aead::Error");
                assert("Decryption failed: "@ + "aead::Error"@ =~= "Decryption failed: aead::Error"@);
            }
            Err(prefixed("Decryption failed: ", e.as_str()))
        },
    }
}

/// The session record that a key exchange stores.
pub open spec fn exchanged_session(
    session_id: Seq<char>,
    client_key: Seq<u8>,
    server_secret: Seq<u8>,
    server_public: Seq<u8>,
    shared_secret: Seq<u8>,
) -> SessionRecord {
    SessionRecord {
        session_id,
        client_public_key: client_key,
        server_secret_key: server_secret,
        server_public_key: server_public,
        shared_secret,
        aes_key: derived_aes_key(shared_secret),
    }
}

/// The second half of a key exchange, once the client's key is read and the
/// server's key pair and the session id are drawn: derives the shared secret
/// and the AES key, stores the session, and answers with the server's public
/// key in Base64 and the session id.
pub fn establish_session(
    store: &mut SessionStore,
    client_key: Vec<u8>,
    server_secret: Vec<u8>,
    server_public: Vec<u8>,
    session_id: String,
) -> (res: Result<KeyExchangeResponse, String>)
    ensures
        match p256_ecdh(server_secret@, client_key@) {
            None => {
                &&& res matches Err(e) && e@ == "Failed to derive shared secret: {}"@
                &&& final(store)@ == old(store)@
            },
            Some(shared) => {
                &&& res matches Ok(r) && {
                    &&& r.public_key@ == base64_encoding(server_public@)
                    &&& base64_round_trips(encode_utf8(r.public_key@), server_public@)
                    &&& r.session_id@ == session_id@
                }
                &&& final(store)@ == old(store)@.insert(
                    session_id@,
                    exchanged_session(
                        session_id@,
                        client_key@,
                        server_secret@,
                        server_public@,
                        shared,
                    ),
                )
            },
        },
        p256_public_key_of(server_secret@) is Some && p256_key_from_sec1(client_key@) is Some
            ==> res is Ok,
        peers_agree(server_secret@, client_key@, p256_ecdh(server_secret@, client_key@)),
{
    let shared_secret = match derive_shared_secret(server_secret.as_slice(), client_key.as_slice()) {
        Ok(secret) => secret,
        Err(_) => {
            return Err("Failed to derive shared secret: {}".to_owned());
        },
    };
    let aes_key = derive_aes_key(shared_secret.as_slice());
    let public_key = public_key_to_base64(server_public.as_slice());
    let session_info = SessionInfo {
        session_id: session_id.clone(),
        client_public_key: client_key,
        server_secret_key: server_secret,
        server_public_key: server_public,
        shared_secret,
        aes_key,
    };
    add_session(store, session_id.as_str(), session_info);
    Ok(KeyExchangeResponse { public_key, session_id })
}

/// What a key exchange with the client key `client_b64` (Base64) does to the
/// sessions `before` (giving `after`) and answers `res`: a key that does not
/// parse is refused; otherwise a session under a UUID v4 that the store does not hold yet is
/// stored, whose AES key derives from the Diffie-Hellman secret of a fresh
/// server key pair and the client's key, and the answer carries the server's
/// public key in Base64, from which the client obtains the same secret.
pub open spec fn key_exchange_effect(
    before: Map<Seq<char>, SessionRecord>,
    after: Map<Seq<char>, SessionRecord>,
    client_b64: Seq<char>,
    res: Result<KeyExchangeResponse, String>,
) -> bool {
    match parsed_public_key(client_b64) {
        Err(_) => {
            &&& res matches Err(e) && e@ == "Invalid public key"@
            &&& after == before
        },
        Ok(client_key) => {
            &&& res is Ok
            &&& res matches Ok(r) ==> {
                let rec = after[r.session_id@];
                &&& after == before.insert(r.session_id@, rec)
                &&& !before.contains_key(r.session_id@)
                &&& is_uuid_v4(r.session_id@)
                &&& rec.server_secret_key.len() == 32
                &&& is_p256_public(rec.server_public_key)
                &&& p256_public_key_of(rec.server_secret_key) == Some(rec.server_public_key)
                &&& p256_ecdh(rec.server_secret_key, client_key) == Some(rec.shared_secret)
                &&& peers_agree(rec.server_secret_key, client_key, Some(rec.shared_secret))
                &&& rec == exchanged_session(
                    r.session_id@,
                    client_key,
                    rec.server_secret_key,
                    rec.server_public_key,
                    rec.shared_secret,
                )
                &&& r.public_key@ == base64_encoding(rec.server_public_key)
                &&& base64_round_trips(encode_utf8(r.public_key@), rec.server_public_key)
            }
        },
    }
}

/// Key exchange with a client whose public key is `client_public_key` (in
/// Base64): draws a fresh server key pair and session id, stores the session
/// and answers with what the client needs to derive the same AES key.
pub fn key_exchange(store: &mut SessionStore, client_public_key: String) -> (res: Result<
    KeyExchangeResponse,
    String,
>)
    ensures
        key_exchange_effect(old(store)@, final(store)@, client_public_key@, res),
{
    let client_key = match public_key_from_base64(client_public_key.as_str()) {
        Ok(key) => key,
        Err(_) => {
            return Err("Invalid public key".to_owned());
        },
    };
    let (server_secret, server_public) = generate_key_pair();
    let session_id = fresh_session_id(store, new_uuid());
    establish_session(store, client_key, server_secret, server_public, session_id)
}

/// Diffie-Hellman agreement: after a key exchange with the client's key, a
/// client holding the secret scalar of that key decodes the server's public
/// key from the answer, derives the very secret the server stored for the
/// session, and from it the session's AES key.
pub proof fn law_client_derives_session_key(
    before: Map<Seq<char>, SessionRecord>,
    after: Map<Seq<char>, SessionRecord>,
    client_b64: Seq<char>,
    r: KeyExchangeResponse,
    client_secret: Seq<u8>,
)
    requires
        key_exchange_effect(before, after, client_b64, Ok(r)),
        parsed_public_key(client_b64) is Ok,
        p256_public_key_of(client_secret) == Some(parsed_public_key(client_b64)->Ok_0),
    ensures
        after.contains_key(r.session_id@),
        decoded_base64(encode_utf8(r.public_key@)) == Ok::<Seq<u8>, Seq<char>>(
            after[r.session_id@].server_public_key,
        ),
        p256_ecdh(client_secret, after[r.session_id@].server_public_key) == Some(
            after[r.session_id@].shared_secret,
        ),
        derived_aes_key(after[r.session_id@].shared_secret) == after[r.session_id@].aes_key,
{
    let rec = after[r.session_id@];
    let client_key = parsed_public_key(client_b64)->Ok_0;
    assert(after == before.insert(r.session_id@, rec));
    assert(p256_public_key_of(client_secret) == Some(client_key));
    assert(peers_agree(rec.server_secret_key, client_key, Some(rec.shared_secret)));
}


/// A key exchange keeps every session stored before it, unchanged, and adds
/// exactly one, under an id that was not in use: the store grows by one.
pub proof fn law_exchange_keeps_earlier_sessions(
    before: Map<Seq<char>, SessionRecord>,
    after: Map<Seq<char>, SessionRecord>,
    client_b64: Seq<char>,
    r: KeyExchangeResponse,
)
    requires
        before.dom().finite(),
        key_exchange_effect(before, after, client_b64, Ok(r)),
    ensures
        !before.contains_key(r.session_id@),
        after.contains_key(r.session_id@),
        after.dom().finite(),
        after.len() == before.len() + 1,
        forall|id: Seq<char>|
            #[trigger] before.contains_key(id) ==> after.contains_key(id) && after[id] == before[id],
{
    let rec = after[r.session_id@];
    assert(after == before.insert(r.session_id@, rec));
    assert(after.dom() == before.dom().insert(r.session_id@));
}

/// Two key exchanges on the same store, one after the other, answer with
/// different session ids, and the second leaves the session of the first
/// as it was.
pub proof fn law_two_exchanges_stay_apart(
    s0: Map<Seq<char>, SessionRecord>,
    s1: Map<Seq<char>, SessionRecord>,
    s2: Map<Seq<char>, SessionRecord>,
    first_b64: Seq<char>,
    second_b64: Seq<char>,
    first: KeyExchangeResponse,
    second: KeyExchangeResponse,
)
    requires
        key_exchange_effect(s0, s1, first_b64, Ok(first)),
        key_exchange_effect(s1, s2, second_b64, Ok(second)),
    ensures
        first.session_id@ != second.session_id@,
        s2.contains_key(first.session_id@),
        s2[first.session_id@] == s1[first.session_id@],
{
    let rec1 = s1[first.session_id@];
    let rec2 = s2[second.session_id@];
    assert(s1 == s0.insert(first.session_id@, rec1));
    assert(s2 == s1.insert(second.session_id@, rec2));
    assert(s1.contains_key(first.session_id@));
}

} // verus!
