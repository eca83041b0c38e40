use notes_api::cache_manager::{
    blacklist_is_empty, finish_watch, get_current_tokenid, get_next_tokenid, is_active_thread,
    is_in_blacklist, new_blacklist, next_watch, pop_from_blacklist, push_blacklist, revoke_token,
    set_current_thread, set_current_tokeind, toggle_loop, unset_current, watch_delay, RevokeAction,
    TokenId,
};

fn jtis(cache: &notes_api::cache_manager::TokenBlacklist) -> Vec<String> {
    cache.tokens.iter().map(|t| t.jti.clone()).collect()
}

#[test]
fn new_blacklist_is_empty_and_loops() {
    let cache = new_blacklist();
    assert!(blacklist_is_empty(&cache));
    assert!(cache.should_loop);
    assert!(!is_active_thread(&cache));
    assert!(get_current_tokenid(&cache).is_none());
}

#[test]
fn push_then_lookup() {
    let mut cache = new_blacklist();
    push_blacklist(&mut cache, "a", 10);
    assert!(is_in_blacklist(&cache, "a"));
    assert!(!is_in_blacklist(&cache, "b"));
    assert!(!blacklist_is_empty(&cache));
}

#[test]
fn pop_removes_only_the_first_match() {
    let mut cache = new_blacklist();
    push_blacklist(&mut cache, "a", 10);
    push_blacklist(&mut cache, "b", 20);
    push_blacklist(&mut cache, "a", 30);
    pop_from_blacklist(&mut cache, "a");
    assert_eq!(jtis(&cache), vec!["b".to_string(), "a".to_string()]);
    assert_eq!(cache.tokens[1].expiration, 30);
    pop_from_blacklist(&mut cache, "zzz");
    assert_eq!(cache.tokens.len(), 2);
}

#[test]
fn pop_undoes_push() {
    let mut cache = new_blacklist();
    push_blacklist(&mut cache, "x", 1);
    push_blacklist(&mut cache, "y", 2);
    pop_from_blacklist(&mut cache, "y");
    assert_eq!(jtis(&cache), vec!["x".to_string()]);
}

#[test]
fn next_token_is_the_first_earliest() {
    let mut cache = new_blacklist();
    push_blacklist(&mut cache, "late", 50);
    push_blacklist(&mut cache, "early1", 5);
    push_blacklist(&mut cache, "early2", 5);
    let next = get_next_tokenid(&cache);
    assert_eq!(next.jti, "early1");
    assert_eq!(next.expiration, 5);
}

#[test]
fn current_token_and_flags() {
    let mut cache = new_blacklist();
    set_current_tokeind(&mut cache, TokenId { jti: "c".to_string(), expiration: 3 });
    assert_eq!(get_current_tokenid(&cache).unwrap().jti, "c");
    unset_current(&mut cache);
    assert!(get_current_tokenid(&cache).is_none());
    toggle_loop(&mut cache, false);
    assert!(!cache.should_loop);
    set_current_thread(&mut cache);
    assert!(is_active_thread(&cache));
}

#[test]
fn first_revoke_spawns_a_watcher() {
    let mut cache = new_blacklist();
    let action = revoke_token(&mut cache, "a", 100);
    assert!(matches!(action, RevokeAction::Spawn { abort_running: false }));
    assert!(is_in_blacklist(&cache, "a"));
    assert!(cache.has_thread);
    assert!(cache.should_loop);
}

#[test]
fn revoking_twice_does_not_duplicate() {
    let mut cache = new_blacklist();
    revoke_token(&mut cache, "a", 100);
    revoke_token(&mut cache, "a", 100);
    assert_eq!(cache.tokens.len(), 1);
}

#[test]
fn later_token_keeps_the_running_watcher() {
    let mut cache = new_blacklist();
    revoke_token(&mut cache, "a", 100);
    let next = next_watch(&mut cache).unwrap();
    assert_eq!(next.jti, "a");
    let action = revoke_token(&mut cache, "b", 200);
    assert!(matches!(action, RevokeAction::Keep));
    assert_eq!(cache.tokens.len(), 2);
}

#[test]
fn earlier_token_restarts_the_watcher() {
    let mut cache = new_blacklist();
    revoke_token(&mut cache, "a", 100);
    next_watch(&mut cache).unwrap();
    let action = revoke_token(&mut cache, "b", 50);
    assert!(matches!(action, RevokeAction::Spawn { abort_running: true }));
    let next = next_watch(&mut cache).unwrap();
    assert_eq!(next.jti, "b");
}

#[test]
fn watcher_stops_when_blacklist_empties() {
    let mut cache = new_blacklist();
    revoke_token(&mut cache, "a", 100);
    revoke_token(&mut cache, "b", 200);
    let first = next_watch(&mut cache).unwrap();
    finish_watch(&mut cache, &first.jti);
    assert!(!is_in_blacklist(&cache, "a"));
    assert!(is_in_blacklist(&cache, "b"));
    assert!(cache.should_loop);
    let second = next_watch(&mut cache).unwrap();
    assert_eq!(second.jti, "b");
    finish_watch(&mut cache, &second.jti);
    assert!(blacklist_is_empty(&cache));
    assert!(!cache.should_loop);
    assert!(cache.current_tokenid.is_none());
    assert!(next_watch(&mut cache).is_none());
}

#[test]
fn revoke_after_watcher_stopped_turns_the_loop_back_on() {
    let mut cache = new_blacklist();
    revoke_token(&mut cache, "a", 100);
    let first = next_watch(&mut cache).unwrap();
    finish_watch(&mut cache, &first.jti);
    assert!(!cache.should_loop);
    let action = revoke_token(&mut cache, "b", 10);
    assert!(matches!(action, RevokeAction::Spawn { abort_running: true }));
    assert!(cache.should_loop);
}

#[test]
fn watch_delay_counts_the_remaining_seconds() {
    assert_eq!(watch_delay(110, 100), Some(10));
    assert_eq!(watch_delay(100, 100), None);
    assert_eq!(watch_delay(90, 100), None);
}
