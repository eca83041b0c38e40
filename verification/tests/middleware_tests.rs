use aes_gcm::{Aes256Gcm, Key, KeyInit, Nonce};
use aes_gcm::aead::Aead;
use base64::engine::general_purpose::STANDARD;
use base64::Engine;
use notes_api::crypto_middleware::{
    route_request, seal_response, seal_response_with_nonce, try_open_request, RequestStep,
    ResponseStep,
};
use notes_api::session_manager::{add_session, new_store, SessionInfo, SessionStore};

fn store_with(id: &str, key: [u8; 32]) -> SessionStore {
    let mut store = new_store();
    add_session(
        &mut store,
        id,
        SessionInfo {
            session_id: id.to_string(),
            client_public_key: vec![],
            server_secret_key: vec![],
            server_public_key: vec![],
            shared_secret: vec![],
            aes_key: key,
        },
    );
    store
}

fn client_seal(key: &[u8; 32], nonce: &[u8; 12], text: &str) -> (String, Vec<u8>) {
    let cipher = Aes256Gcm::new(Key::<Aes256Gcm>::from_slice(key));
    let ct = cipher.encrypt(Nonce::from_slice(nonce), text.as_bytes()).unwrap();
    (STANDARD.encode(nonce), STANDARD.encode(ct).into_bytes())
}

#[test]
fn non_post_or_unsessioned_requests_pass() {
    let store = store_with("s", [1; 32]);
    assert!(matches!(route_request(&store, false, Some(Some("s")), Some("n")), RequestStep::PassThrough));
    assert!(matches!(route_request(&store, true, None, Some("n")), RequestStep::PassThrough));
}

#[test]
fn bad_headers_are_rejected() {
    let store = store_with("s", [1; 32]);
    match route_request(&store, true, Some(None), Some("n")) {
        RequestStep::Reject(r) => {
            assert_eq!(r.status, 400);
            assert_eq!(r.message, "Invalid or missing x-session-key header");
        }
        _ => panic!("unreadable session header accepted"),
    }
    match route_request(&store, true, Some(Some("s")), None) {
        RequestStep::Reject(r) => {
            assert_eq!(r.status, 400);
            assert_eq!(r.message, "Invalid or missing x-nonce header");
        }
        _ => panic!("missing nonce accepted"),
    }
    match route_request(&store, true, Some(Some("other")), Some("n")) {
        RequestStep::Reject(r) => {
            assert_eq!(r.status, 401);
            assert_eq!(r.message, "Session not found or expired");
        }
        _ => panic!("unknown session accepted"),
    }
}

#[test]
fn known_session_is_decrypted_with_its_key() {
    let store = store_with("s", [7; 32]);
    match route_request(&store, true, Some(Some("s")), Some("n")) {
        RequestStep::Decrypt { aes_key } => assert_eq!(aes_key, [7; 32]),
        _ => panic!("known session not decrypted"),
    }
}

#[test]
fn client_request_is_opened() {
    let key = [4u8; 32];
    let (nonce, body) = client_seal(&key, &[2u8; 12], "{\"title\":\"hi\"}");
    let opened = try_open_request(&key, &nonce, &body).unwrap().unwrap();
    assert_eq!(opened, "{\"title\":\"hi\"}");
}

#[test]
fn request_errors() {
    let key = [4u8; 32];
    let (nonce, body) = client_seal(&key, &[2u8; 12], "x");
    let r = try_open_request(&key, "***", &body).unwrap().unwrap_err();
    assert_eq!((r.status, r.message.as_str()), (400, "invalid Base64 for nonce"));
    let r = try_open_request(&key, &nonce, b"***").unwrap().unwrap_err();
    assert_eq!((r.status, r.message.as_str()), (400, "invalid Base64 for ciphertext"));
    let r = try_open_request(&[5u8; 32], &nonce, &body).unwrap().unwrap_err();
    assert_eq!((r.status, r.message.as_str()), (500, "decryption failed"));
}

#[test]
fn short_nonce_cannot_be_used() {
    let key = [4u8; 32];
    let (_, body) = client_seal(&key, &[2u8; 12], "x");
    assert!(try_open_request(&key, &STANDARD.encode([1u8; 8]), &body).is_none());
}

#[test]
fn responses_that_are_not_sealed() {
    let key = [4u8; 32];
    assert!(matches!(seal_response(false, b"body".to_vec(), &key), ResponseStep::Unchanged));
    assert!(matches!(seal_response(true, vec![], &key), ResponseStep::Empty));
    match seal_response(true, vec![0xff, 0xfe], &key) {
        ResponseStep::Reject(r) => {
            assert_eq!(r.status, 500);
            assert_eq!(r.message, "response body is not valid UTF-8");
        }
        _ => panic!("invalid UTF-8 sealed"),
    }
}

#[test]
fn sealed_response_opens_on_the_client() {
    let key = [6u8; 32];
    match seal_response_with_nonce(true, b"[1,2,3]".to_vec(), &key, vec![3u8; 12]) {
        ResponseStep::Sealed { body, nonce } => {
            assert_eq!(STANDARD.decode(&nonce).unwrap(), vec![3u8; 12]);
            let cipher = Aes256Gcm::new(Key::<Aes256Gcm>::from_slice(&key));
            let ct = STANDARD.decode(&body).unwrap();
            let plain = cipher.decrypt(Nonce::from_slice(&[3u8; 12]), ct.as_slice()).unwrap();
            assert_eq!(plain, b"[1,2,3]".to_vec());
            // and the middleware's own opening gives the text back
            let back = try_open_request(&key, &nonce, body.as_bytes()).unwrap().unwrap();
            assert_eq!(back, "[1,2,3]");
        }
        _ => panic!("response not sealed"),
    }
}
