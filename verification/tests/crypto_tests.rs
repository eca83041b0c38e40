use aes_gcm::aead::{Aead, OsRng};
use aes_gcm::{Aes256Gcm, Key, KeyInit, Nonce};
use base64::engine::general_purpose::STANDARD;
use base64::Engine;
use notes_api::crypto_manager::{
    base64_decode, base64_decode_bytes, base64_encode, decrypt_aes_gcm, derive_aes_key,
    derive_shared_secret, encrypt_aes_gcm, encrypt_aes_gcm_with_nonce, generate_key_pair,
    generate_nonce, key_exchange, public_key_from_base64, public_key_to_base64, KDF_LABEL,
};
use notes_api::session_manager::{check_session, new_store};
use p256::ecdh::diffie_hellman;
use p256::elliptic_curve::sec1::ToEncodedPoint;
use p256::pkcs8::EncodePublicKey;
use p256::{PublicKey, SecretKey};
use sha2::{Digest, Sha256};

fn session_id_is_uuid_v4(s: &str) -> bool {
    let c: Vec<char> = s.chars().collect();
    c.len() == 36
        && c.iter().enumerate().all(|(i, ch)| {
            if [8, 13, 18, 23].contains(&i) {
                *ch == '-'
            } else {
                ch.is_ascii_digit() || ('a'..='f').contains(ch)
            }
        })
        && c[14] == '4'
        && "89ab".contains(c[19])
}


fn sha256(data: &[u8]) -> Vec<u8> {
    let mut h = Sha256::new();
    h.update(data);
    h.finalize().to_vec()
}

#[test]
fn base64_encode_known_values() {
    assert_eq!(base64_encode(b"hello"), "aGVsbG8=");
    assert_eq!(base64_encode(b""), "");
    assert_eq!(base64_encode(&[0xff, 0x00, 0x10]), "/wAQ");
}

#[test]
fn base64_decode_known_values() {
    assert_eq!(base64_decode("aGVsbG8=").unwrap(), b"hello".to_vec());
    assert_eq!(base64_decode_bytes(b"/wAQ").unwrap(), vec![0xff, 0x00, 0x10]);
}

#[test]
fn base64_decode_reports_errors_with_prefix() {
    let err = base64_decode("!!!!").unwrap_err();
    assert_eq!(err, "Base64 decode error: Invalid symbol 33, offset 0.");
    let err = base64_decode_bytes(b"abc").unwrap_err();
    assert!(err.starts_with("Base64 decode error: "));
}

#[test]
fn base64_round_trip() {
    let data: Vec<u8> = (0u8..=255).collect();
    assert_eq!(base64_decode(&base64_encode(&data)).unwrap(), data);
}

#[test]
fn kdf_label_is_the_text() {
    assert_eq!(&KDF_LABEL, b"e2e_encryption_key");
}

#[test]
fn derive_aes_key_hashes_secret_and_label() {
    let secret = [7u8; 32];
    let mut joined = secret.to_vec();
    joined.extend_from_slice(b"e2e_encryption_key");
    assert_eq!(derive_aes_key(&secret).to_vec(), sha256(&joined));
    assert_ne!(derive_aes_key(&secret).to_vec(), sha256(&secret));
}

#[test]
fn generated_key_pair_has_expected_shape() {
    let (secret, public) = generate_key_pair();
    assert_eq!(secret.len(), 32);
    assert_eq!(public.len(), 65);
    assert_eq!(public[0], 4);
    let sk = SecretKey::from_slice(&secret).unwrap();
    assert_eq!(sk.public_key().to_encoded_point(false).as_bytes(), public.as_slice());
}

#[test]
fn public_key_parses_sec1_and_der() {
    let sk = SecretKey::random(&mut OsRng);
    let pk = sk.public_key();
    let uncompressed = pk.to_encoded_point(false).as_bytes().to_vec();
    let compressed = pk.to_encoded_point(true).as_bytes().to_vec();
    let der = pk.to_public_key_der().unwrap().as_bytes().to_vec();
    assert_eq!(public_key_from_base64(&STANDARD.encode(&der)).unwrap(), uncompressed);
    assert_eq!(public_key_from_base64(&STANDARD.encode(&uncompressed)).unwrap(), uncompressed);
    assert_eq!(public_key_from_base64(&STANDARD.encode(&compressed)).unwrap(), uncompressed);
    assert_eq!(public_key_to_base64(&uncompressed), STANDARD.encode(&uncompressed));
}

#[test]
fn public_key_errors() {
    let err = public_key_from_base64("not base64!").unwrap_err();
    assert!(err.starts_with("Failed to decode base64: "));
    let err = public_key_from_base64(&STANDARD.encode(b"garbage")).unwrap_err();
    assert_eq!(err, "Failed to parse public key in both X.509 and SEC1 formats: crypto error");
}

#[test]
fn shared_secret_agrees_on_both_sides() {
    let (server_secret, server_public) = generate_key_pair();
    let client = SecretKey::random(&mut OsRng);
    let client_public = client.public_key().to_encoded_point(false).as_bytes().to_vec();
    let server_side = derive_shared_secret(&server_secret, &client_public).unwrap();
    let server_pk = PublicKey::from_sec1_bytes(&server_public).unwrap();
    let client_side = diffie_hellman(client.to_nonzero_scalar(), server_pk.as_affine());
    assert_eq!(server_side, client_side.raw_secret_bytes().to_vec());
    assert_eq!(server_side.len(), 32);
}

#[test]
fn shared_secret_rejects_invalid_keys() {
    let (server_secret, _) = generate_key_pair();
    let err = derive_shared_secret(&server_secret, b"bad key").unwrap_err();
    assert_eq!(err, "Failed to derive shared secret: invalid key");
}

#[test]
fn nonce_has_twelve_bytes() {
    assert_eq!(generate_nonce().len(), 12);
}

#[test]
fn encryption_matches_aes_gcm() {
    let key = [3u8; 32];
    let nonce = vec![9u8; 12];
    let (ct, n) = encrypt_aes_gcm_with_nonce("secret note", &key, nonce.clone()).unwrap();
    assert_eq!(n, nonce);
    let cipher = Aes256Gcm::new(Key::<Aes256Gcm>::from_slice(&key));
    let expected = cipher.encrypt(Nonce::from_slice(&nonce), b"secret note".as_slice()).unwrap();
    assert_eq!(ct, expected);
    assert_eq!(ct.len(), "secret note".len() + 16);
}

#[test]
fn decrypt_inverts_encrypt() {
    let key = [5u8; 32];
    let (ct, nonce) = encrypt_aes_gcm("héllo wörld", &key).unwrap();
    assert_eq!(ct.len(), "héllo wörld".len() + 16);
    assert_eq!(nonce.len(), 12);
    assert_eq!(decrypt_aes_gcm(&ct, &nonce, &key).unwrap(), "héllo wörld");
}

#[test]
fn decrypt_with_wrong_key_fails() {
    let (ct, nonce) = encrypt_aes_gcm("data", &[1u8; 32]).unwrap();
    assert_eq!(decrypt_aes_gcm(&ct, &nonce, &[2u8; 32]).unwrap_err(), "Decryption failed: aead::Error");
}

#[test]
fn decrypt_of_non_utf8_plaintext_fails() {
    let key = [8u8; 32];
    let nonce = [1u8; 12];
    let cipher = Aes256Gcm::new(Key::<Aes256Gcm>::from_slice(&key));
    let ct = cipher.encrypt(Nonce::from_slice(&nonce), [0xffu8, 0xfe].as_slice()).unwrap();
    let err = decrypt_aes_gcm(&ct, &nonce, &key).unwrap_err();
    assert!(err.starts_with("Failed to convert to UTF-8: "));
}

#[test]
fn key_exchange_stores_the_session_the_client_can_derive() {
    let mut store = new_store();
    let client = SecretKey::random(&mut OsRng);
    let client_public = client.public_key().to_encoded_point(false).as_bytes().to_vec();
    let response = key_exchange(&mut store, STANDARD.encode(&client_public)).unwrap();
    assert!(session_id_is_uuid_v4(&response.session_id));
    assert_eq!(&response.session_id[14..15], "4");
    for i in [8, 13, 18, 23] {
        assert_eq!(&response.session_id[i..i + 1], "-");
    }
    let session = check_session(&store, &response.session_id).unwrap();
    assert_eq!(session.session_id, response.session_id);
    assert_eq!(session.client_public_key, client_public);
    assert_eq!(session.server_public_key.len(), 65);
    // the answer carries the server's public key only; the client derives
    // the same secret and key from it
    let server_public = public_key_from_base64(&response.public_key).unwrap();
    assert_eq!(server_public, session.server_public_key);
    let server_pk = PublicKey::from_sec1_bytes(&server_public).unwrap();
    let shared = diffie_hellman(client.to_nonzero_scalar(), server_pk.as_affine());
    let shared = shared.raw_secret_bytes().to_vec();
    assert_eq!(session.shared_secret, shared);
    let client_scalar = client.to_bytes().to_vec();
    assert_eq!(derive_shared_secret(&client_scalar, &server_public).unwrap(), shared);
    assert_eq!(session.aes_key, derive_aes_key(&shared));
}

#[test]
fn key_exchange_refuses_invalid_keys() {
    let mut store = new_store();
    let (_, known_public) = generate_key_pair();
    let known = key_exchange(&mut store, public_key_to_base64(&known_public)).unwrap();
    match key_exchange(&mut store, "bogus".to_string()) {
        Err(e) => assert_eq!(e, "Invalid public key"),
        Ok(_) => panic!("accepted an invalid key"),
    }
    assert!(check_session(&store, &known.session_id).is_some());
}

#[test]
fn public_key_survives_base64() {
    let (_, public) = generate_key_pair();
    let text = public_key_to_base64(&public);
    assert_eq!(STANDARD.decode(&text).unwrap(), public);
    assert_eq!(public_key_from_base64(&text).unwrap(), public);
}
