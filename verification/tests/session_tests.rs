use notes_api::routes::{exchange, validate};
use notes_api::session_manager::{add_session, check_session, new_store, pop_session, SessionInfo};

fn info(id: &str, byte: u8) -> SessionInfo {
    SessionInfo {
        session_id: id.to_string(),
        client_public_key: vec![byte; 65],
        server_secret_key: vec![byte; 32],
        server_public_key: vec![byte; 65],
        shared_secret: vec![byte; 32],
        aes_key: [byte; 32],
    }
}

#[test]
fn added_session_is_found() {
    let mut store = new_store();
    add_session(&mut store, "s1", info("s1", 1));
    let found = check_session(&store, "s1").unwrap();
    assert_eq!(found.aes_key, [1u8; 32]);
    assert!(check_session(&store, "s2").is_none());
}

#[test]
fn adding_again_replaces() {
    let mut store = new_store();
    add_session(&mut store, "s1", info("s1", 1));
    add_session(&mut store, "s2", info("s2", 2));
    add_session(&mut store, "s1", info("s1", 3));
    assert_eq!(check_session(&store, "s1").unwrap().aes_key, [3u8; 32]);
    assert_eq!(check_session(&store, "s2").unwrap().aes_key, [2u8; 32]);
}

#[test]
fn popped_session_is_gone() {
    let mut store = new_store();
    add_session(&mut store, "s1", info("s1", 1));
    add_session(&mut store, "s2", info("s2", 2));
    pop_session(&mut store, "s1");
    assert!(check_session(&store, "s1").is_none());
    assert!(check_session(&store, "s2").is_some());
    pop_session(&mut store, "missing");
    assert!(check_session(&store, "s2").is_some());
    pop_session(&mut store, "s2");
    assert!(check_session(&store, "s2").is_none());
    add_session(&mut store, "s1", info("s1", 4));
    assert_eq!(check_session(&store, "s1").unwrap().aes_key, [4u8; 32]);
}

#[test]
fn session_survives_steps_on_other_ids() {
    let mut store = new_store();
    add_session(&mut store, "kept", info("kept", 7));
    add_session(&mut store, "a", info("a", 1));
    pop_session(&mut store, "b");
    add_session(&mut store, "b", info("b", 2));
    pop_session(&mut store, "a");
    add_session(&mut store, "b", info("b", 3));
    let kept = check_session(&store, "kept").unwrap();
    assert_eq!(kept.session_id, "kept");
    assert_eq!(kept.server_public_key, vec![7u8; 65]);
    assert_eq!(kept.aes_key, [7u8; 32]);
}

#[test]
fn validate_endpoint() {
    let mut store = new_store();
    add_session(&mut store, "s1", info("s1", 1));
    assert_eq!(validate(&store, None), (400, "session key not present".to_string()));
    assert_eq!(validate(&store, Some("s1")).0, 200);
    assert_eq!(validate(&store, Some("nope")).0, 403);
}

#[test]
fn exchange_endpoint_needs_a_key() {
    let mut store = new_store();
    match exchange(&mut store, None) {
        Err(r) => {
            assert_eq!(r.status, 400);
            assert_eq!(r.message, "public key not present");
        }
        Ok(_) => panic!("exchange without a key"),
    }
    match exchange(&mut store, Some("????".to_string())) {
        Err(r) => {
            assert_eq!(r.status, 500);
            assert_eq!(r.message, "Invalid public key");
        }
        Ok(_) => panic!("exchange with a bad key"),
    }
}
