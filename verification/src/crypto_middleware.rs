//! The decisions of the middleware that decrypts the bodies of POST requests
//! sent under a session and encrypts the bodies of the answers.
//!
//! The server reads the headers and hands them to `route_request`; when it
//! answers `Decrypt`, it reads the body and hands it to `try_open_request`;
//! the answer of the inner service goes through `seal_response`.
use vstd::prelude::*;
use vstd::utf8::{decode_utf8, encode_utf8, valid_utf8};

use crate::crypto_manager::{
    aes256gcm_sealed, base64_decode, base64_decode_bytes, base64_decoding, base64_encode,
    base64_encoding, decrypt_aes_gcm, decrypted_text, encrypt_aes_gcm_with_nonce, generate_nonce,
    string_from_utf8, AES_GCM_MAX_PLAINTEXT,
};
use crate::session_manager::{check_session, SessionStore};

verus! {

/// A refused request: the HTTP status and the message of the answer.
#[derive(Debug)]
pub struct Rejection {
    pub status: u16,
    pub message: String,
}

impl View for Rejection {
    type V = (u16, Seq<char>);

    open spec fn view(&self) -> (u16, Seq<char>) {
        (self.status, self.message@)
    }
}

/// What to do with a request once its headers are read.
#[derive(Debug)]
pub enum RequestStep {
    /// Hand the request on unchanged.
    PassThrough,
    /// Answer with this error.
    Reject(Rejection),
    /// Read the body and decrypt it with this session key.
    Decrypt { aes_key: [u8; 32] },
}

/// What to do with the answer of the inner service.
#[derive(Debug)]
pub enum ResponseStep {
    /// Hand it on unchanged.
    Unchanged,
    /// Answer with the same status and an empty body.
    Empty,
    /// Answer with this body and an `x-nonce` header holding `nonce`.
    Sealed { body: String, nonce: String },
    /// Answer with this error instead.
    Reject(Rejection),
}

/// A rejection with `status` and `message`.
fn reject(status: u16, message: &str) -> (res: Rejection)
    ensures
        res@ == (status, message@),
{
    Rejection { status, message: message.to_owned() }
}

/// The view of an optional header.
pub open spec fn header_view(h: Option<&str>) -> Option<Seq<char>> {
    match h {
        Some(s) => Some(s@),
        None => None,
    }
}

/// What `route_request` decides, as (step, status, message, key): step 0
/// passes through, 1 rejects with status and message, 2 decrypts with key.
pub open spec fn request_route(
    sessions: Map<Seq<char>, crate::session_manager::SessionRecord>,
    is_post: bool,
    session_header: Option<Option<Seq<char>>>,
    nonce_header: Option<Seq<char>>,
) -> (int, u16, Seq<char>, Seq<u8>) {
    if !is_post || session_header is None {
        (0, 0, Seq::empty(), Seq::empty())
    } else {
        match session_header->0 {
            None => (1, 400, "Invalid or missing x-session-key header"@, Seq::empty()),
            Some(id) => if nonce_header is None {
                (1, 400, "Invalid or missing x-nonce header"@, Seq::empty())
            } else if !sessions.contains_key(id) {
                (1, 401, "Session not found or expired"@, Seq::empty())
            } else {
                (2, 0, Seq::empty(), sessions[id].aes_key)
            },
        }
    }
}

/// The view of a request step in the shape of `request_route`.
pub open spec fn request_step_view(s: RequestStep) -> (int, u16, Seq<char>, Seq<u8>) {
    match s {
        RequestStep::PassThrough => (0, 0, Seq::empty(), Seq::empty()),
        RequestStep::Reject(r) => (1, r.status, r.message@, Seq::empty()),
        RequestStep::Decrypt { aes_key } => (2, 0, Seq::empty(), aes_key@),
    }
}

/// The decision on a request from its method and its headers: only POST
/// requests that name a session are decrypted. `session_header` is `None`
/// when the `x-session-key` header is absent and `Some(None)` when it is not
/// readable text; `nonce_header` is `None` when `x-nonce` is absent or not
/// readable text.
pub fn route_request(
    store: &SessionStore,
    is_post: bool,
    session_header: Option<Option<&str>>,
    nonce_header: Option<&str>,
) -> (res: RequestStep)
    ensures
        request_step_view(res) == request_route(
            store@,
            is_post,
            match session_header {
                Some(h) => Some(header_view(h)),
                None => None,
            },
            header_view(nonce_header),
        ),
{
    if !is_post {
        return RequestStep::PassThrough;
    }
    let session_id = match session_header {
        None => {
            return RequestStep::PassThrough;
        },
        Some(None) => {
            return RequestStep::Reject(reject(400, "Invalid or missing x-session-key header"));
        },
        Some(Some(id)) => id,
    };
    if nonce_header.is_none() {
        return RequestStep::Reject(reject(400, "Invalid or missing x-nonce header"));
    }
    match check_session(store, session_id) {
        Some(session) => RequestStep::Decrypt { aes_key: session.aes_key },
        None => RequestStep::Reject(reject(401, "Session not found or expired")),
    }
}

/// The text that a request body decrypts to, or the rejection: the nonce
/// header and the body are Base64, the body holds the AES-GCM ciphertext.
pub open spec fn request_plaintext(key: Seq<u8>, nonce_header: Seq<char>, body: Seq<u8>) -> Result<
    Seq<char>,
    (u16, Seq<char>),
> {
    match base64_decoding(encode_utf8(nonce_header)) {
        Err(_) => Err((400u16, "invalid Base64 for nonce"@)),
        Ok(nonce) => match base64_decoding(body) {
            Err(_) => Err((400u16, "invalid Base64 for ciphertext"@)),
            Ok(ciphertext) => match decrypted_text(key, nonce, ciphertext) {
                Ok(text) => Ok(text),
                Err(_) => Err((500u16, "decryption failed"@)),
            },
        },
    }
}

/// The nonce and the ciphertext can be handed to AES-GCM: whenever both
/// decode, the nonce has 12 bytes.
pub open spec fn opens_safely(nonce_header: Seq<char>, body: Seq<u8>) -> bool {
    match base64_decoding(encode_utf8(nonce_header)) {
        Ok(nonce) => base64_decoding(body) is Ok ==> nonce.len() == 12,
        Err(_) => true,
    }
}

/// The view of the result of opening a request.
pub open spec fn opened_view(r: Result<String, Rejection>) -> Result<Seq<char>, (u16, Seq<char>)> {
    match r {
        Ok(t) => Ok(t@),
        Err(e) => Err(e@),
    }
}

/// Decrypts a request body under the session key.
pub fn open_request(aes_key: &[u8; 32], nonce_header: &str, body: &[u8]) -> (res: Result<
    String,
    Rejection,
>)
    requires
        opens_safely(nonce_header@, body@),
    ensures
        opened_view(res) == request_plaintext(aes_key@, nonce_header@, body@),
{
    let nonce = match base64_decode(nonce_header) {
        Ok(n) => n,
        Err(_) => {
            return Err(reject(400, "invalid Base64 for nonce"));
        },
    };
    let ciphertext = match base64_decode_bytes(body) {
        Ok(c) => c,
        Err(_) => {
            return Err(reject(400, "invalid Base64 for ciphertext"));
        },
    };
    match decrypt_aes_gcm(ciphertext.as_slice(), nonce.as_slice(), aes_key) {
        Ok(text) => Ok(text),
        Err(_) => Err(reject(500, "decryption failed")),
    }
}

/// Decrypts a request body under the session key, or answers `None` when
/// both decode but the nonce does not have the 12 bytes AES-GCM takes.
pub fn try_open_request(aes_key: &[u8; 32], nonce_header: &str, body: &[u8]) -> (res: Option<
    Result<String, Rejection>,
>)
    ensures
        match res {
            None => !opens_safely(nonce_header@, body@),
            Some(r) => opens_safely(nonce_header@, body@) && opened_view(r) == request_plaintext(
                aes_key@,
                nonce_header@,
                body@,
            ),
        },
{
    let nonce = match base64_decode(nonce_header) {
        Ok(n) => n,
        Err(_) => {
            return Some(open_request(aes_key, nonce_header, body));
        },
    };
    if nonce.len() != 12 {
        match base64_decode_bytes(body) {
            Ok(_) => {
                return None;
            },
            Err(_) => {},
        }
    }
    Some(open_request(aes_key, nonce_header, body))
}

/// The view of a response step: (step, text, nonce, status) with step 0
/// unchanged, 1 empty, 2 sealed (body text and nonce text), 3 rejected.
pub open spec fn response_step_view(s: ResponseStep) -> (int, Seq<char>, Seq<char>, u16) {
    match s {
        ResponseStep::Unchanged => (0, Seq::empty(), Seq::empty(), 0),
        ResponseStep::Empty => (1, Seq::empty(), Seq::empty(), 0),
        ResponseStep::Sealed { body, nonce } => (2, body@, nonce@, 0),
        ResponseStep::Reject(r) => (3, r.message@, Seq::empty(), r.status),
    }
}

/// What `seal_response_with_nonce` decides for an answer.
pub open spec fn sealed_response(success: bool, body: Seq<u8>, key: Seq<u8>, nonce: Seq<u8>) -> (
    int,
    Seq<char>,
    Seq<char>,
    u16,
) {
    if !success {
        (0, Seq::empty(), Seq::empty(), 0)
    } else if body.len() == 0 {
        (1, Seq::empty(), Seq::empty(), 0)
    } else if !valid_utf8(body) {
        (3, "response body is not valid UTF-8"@, Seq::empty(), 500)
    } else if body.len() > AES_GCM_MAX_PLAINTEXT {
        (3, "response encryption failed"@, Seq::empty(), 500)
    } else {
        (
            2,
            base64_encoding(aes256gcm_sealed(key, nonce, body)),
            base64_encoding(nonce),
            0,
        )
    }
}

/// The decision on the answer of the inner service, whose status is a
/// success or not and whose body is `body`: a successful non-empty UTF-8
/// body is encrypted under the session key with `nonce` and sent in Base64,
/// with the nonce in Base64 beside it.
pub fn seal_response_with_nonce(success: bool, body: Vec<u8>, aes_key: &[u8; 32], nonce: Vec<u8>) -> (res:
    ResponseStep)
    requires
        nonce@.len() == 12,
    ensures
        response_step_view(res) == sealed_response(success, body@, aes_key@, nonce@),
        res matches ResponseStep::Sealed { body: sealed, nonce: nonce_text } ==> request_plaintext(
            aes_key@,
            nonce_text@,
            encode_utf8(sealed@),
        ) == Ok::<Seq<char>, (u16, Seq<char>)>(decode_utf8(body@)),
{
    if !success {
        return ResponseStep::Unchanged;
    }
    if body.len() == 0 {
        return ResponseStep::Empty;
    }
    let ghost body_bytes = body@;
    let text = match string_from_utf8(body) {
        Ok(t) => t,
        Err(_) => {
            return ResponseStep::Reject(reject(500, "response body is not valid UTF-8"));
        },
    };
    proof {
        vstd::utf8::decode_utf8_encode_utf8(body_bytes);
    }
    assert(encode_utf8(text@) == body_bytes);
    match encrypt_aes_gcm_with_nonce(text.as_str(), aes_key, nonce) {
        Ok((ciphertext, used_nonce)) => {
            let sealed = base64_encode(ciphertext.as_slice());
            let nonce_text = base64_encode(used_nonce.as_slice());
            ResponseStep::Sealed { body: sealed, nonce: nonce_text }
        },
        Err(_) => ResponseStep::Reject(reject(500, "response encryption failed")),
    }
}

/// The decision on the answer of the inner service, with a fresh random nonce.
pub fn seal_response(success: bool, body: Vec<u8>, aes_key: &[u8; 32]) -> (res: ResponseStep)
    ensures
        exists|nonce: Seq<u8>|
            nonce.len() == 12 && response_step_view(res) == sealed_response(
                success,
                body@,
                aes_key@,
                nonce,
            ),
        res matches ResponseStep::Sealed { body: sealed, nonce: nonce_text } ==> request_plaintext(
            aes_key@,
            nonce_text@,
            encode_utf8(sealed@),
        ) == Ok::<Seq<char>, (u16, Seq<char>)>(decode_utf8(body@)),
{
    let nonce = generate_nonce();
    let ghost n = nonce@;
    let ghost b = body@;
    let res = seal_response_with_nonce(success, body, aes_key, nonce);
    assert(response_step_view(res) == sealed_response(success, b, aes_key@, n));
    res
}

} // verus!
