use notes_api::token_manager::{
    authorize_at, check_token, check_token_at, generate_token, generate_token_at, jwt_validator,
    revoke_creds, token_from_header, AuthDecision, MAX_LIFETIME,
};

fn jti_is_uuid_v4(s: &str) -> bool {
    let c: Vec<char> = s.chars().collect();
    c.len() == 36
        && c.iter().enumerate().all(|(i, ch)| {
            if [8, 13, 18, 23].contains(&i) {
                *ch == '-'
            } else {
                ch.is_ascii_digit() || ('a'..='f').contains(ch)
            }
        })
        && c[14] == '4'
        && "89ab".contains(c[19])
}


#[test]
fn generated_token_is_accepted_until_it_expires() {
    let token = generate_token_at("user-1", "secret", 10, 1000, 1000, "jti-1".to_string());
    assert_eq!(token.lifetime, 10);
    let claims = check_token_at(&token.token, "secret", 1005).unwrap();
    assert_eq!(claims.iat, 1000);
    assert_eq!(claims.exp, 1010);
    assert_eq!(claims.jti, "jti-1");
    assert_eq!(claims.user_id, "user-1");
    assert!(check_token_at(&token.token, "secret", 1009).is_some());
    assert!(check_token_at(&token.token, "secret", 1010).is_none());
    assert!(check_token_at(&token.token, "secret", 5000).is_none());
}

#[test]
fn fresh_token_checks_now() {
    let token = generate_token("user-2", "server-secret", 3600);
    assert_eq!(token.lifetime, 3600);
    let claims = check_token(&token.token, "server-secret").unwrap();
    assert_eq!(claims.user_id, "user-2");
    assert!(jti_is_uuid_v4(&claims.jti));
    assert!(claims.exp as i64 >= claims.iat + 3600);
}

#[test]
fn token_is_refused_under_another_secret() {
    let token = generate_token_at("user-1", "secret", 3600, 1000, 1000, "jti-1".to_string());
    assert_eq!(token.lifetime, 3600);
    assert_eq!(check_token_at(&token.token, "secret", 4599).unwrap().exp, 4600);
    assert!(check_token_at(&token.token, "other", 1001).is_none());
    assert!(check_token_at(&token.token, "", 1001).is_none());
    assert!(matches!(
        authorize_at("/notes", Some(&token.token), "other", 1001),
        AuthDecision::Unauthorized(_)
    ));
}

#[test]
fn negative_and_largest_lifetimes() {
    let token = generate_token_at("u", "s", -5, 1000, 1000, "j".to_string());
    assert!(check_token_at(&token.token, "s", 994).is_some());
    assert!(check_token_at(&token.token, "s", 995).is_none());
    let token = generate_token_at("u", "s", MAX_LIFETIME, 0, 0, "j".to_string());
    assert_eq!(check_token_at(&token.token, "s", 0).unwrap().exp, MAX_LIFETIME as usize);
}

#[test]
fn tampered_token_is_refused() {
    let token = generate_token_at("user-1", "secret", 10, 1000, 1000, "jti-1".to_string());
    let mut forged = token.token.clone();
    forged.push('x');
    assert!(check_token_at(&forged, "secret", 1001).is_none());
    assert!(check_token_at("not.a.token", "secret", 1001).is_none());
}

#[test]
fn public_paths_need_no_token() {
    assert!(matches!(authorize_at("/user/login", None, "s", 0), AuthDecision::Allow));
    assert!(matches!(authorize_at("/user/register", None, "s", 0), AuthDecision::Allow));
    assert!(matches!(jwt_validator("/user/login", None, "s"), AuthDecision::Allow));
}

#[test]
fn other_paths_need_a_valid_token() {
    match authorize_at("/notes", None, "s", 0) {
        AuthDecision::Forbidden(m) => assert_eq!(m, "bearer missing"),
        _ => panic!("missing bearer allowed"),
    }
    match authorize_at("/notes", Some("bad"), "s", 0) {
        AuthDecision::Unauthorized(m) => assert_eq!(m, "unauthorized"),
        _ => panic!("bad bearer allowed"),
    }
    let token = generate_token_at("u", "s", 10, 100, 100, "j".to_string());
    assert!(matches!(authorize_at("/notes", Some(&token.token), "s", 105), AuthDecision::Allow));
    assert!(matches!(
        authorize_at("/notes", Some(&token.token), "s", 200),
        AuthDecision::Unauthorized(_)
    ));
    let fresh = generate_token("u", "s", 3600);
    assert!(matches!(jwt_validator("/notes", Some(&fresh.token), "s"), AuthDecision::Allow));
    assert!(matches!(
        jwt_validator("/notes", Some(&fresh.token), "t"),
        AuthDecision::Unauthorized(_)
    ));
}

#[test]
fn token_is_taken_from_the_header_text() {
    assert_eq!(token_from_header(Some("\"Bearer abc.def\"")).unwrap(), "abc.def");
    assert_eq!(token_from_header(Some("\"abc\"")).unwrap(), "abc");
    assert_eq!(token_from_header(Some("\"Bearer  two\"")).unwrap(), "two");
    assert_eq!(token_from_header(Some("\"Bearer \"")).unwrap(), "");
    assert!(token_from_header(None).is_none());
}

#[test]
fn revoke_creds_does_nothing_yet() {
    revoke_creds("some-jti");
}
