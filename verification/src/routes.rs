//! The decisions of the session endpoints.
use vstd::prelude::*;

use crate::crypto_manager::{key_exchange, key_exchange_effect, parsed_public_key, KeyExchangeResponse};
use crate::crypto_middleware::Rejection;
use crate::session_manager::{check_session, SessionStore};

verus! {

/// `GET session/exchange`: the client's public key comes in the
/// `x-public-key` header (`None` when absent). Answers 400 without it and
/// 500 with the error of `key_exchange` when that fails.
pub fn exchange(store: &mut SessionStore, public_key_header: Option<String>) -> (res: Result<
    KeyExchangeResponse,
    Rejection,
>)
    ensures
        public_key_header matches Some(key) && parsed_public_key(key@) is Ok ==> res is Ok,
        match public_key_header {
            None => res matches Err(r) && r@ == (400u16, "public key not present"@) && final(store)@
                == old(store)@,
            Some(key) => match res {
                Ok(r) => key_exchange_effect(old(store)@, final(store)@, key@, Ok(r)),
                Err(r) => r.status == 500 && exists|e: String|
                    e@ == r.message@ && #[trigger] key_exchange_effect(
                        old(store)@,
                        final(store)@,
                        key@,
                        Err(e),
                    ),
            },
        },
{
    let key = match public_key_header {
        Some(key) => key,
        None => {
            return Err(Rejection { status: 400, message: "public key not present".to_owned() });
        },
    };
    match key_exchange(store, key) {
        Ok(response) => Ok(response),
        Err(e) => Err(Rejection { status: 500, message: e }),
    }
}

/// `GET session/validate`: the session id comes in the `x-session-key`
/// header (`None` when absent). Answers 400 without it, 200 when the
/// session is known and 403 otherwise.
pub fn validate(store: &SessionStore, session_key_header: Option<&str>) -> (res: (u16, String))
    ensures
        match session_key_header {
            None => res.0 == 400 && res.1@ == "session key not present"@,
            Some(key) => res.0 == (if store@.contains_key(key@) {
                200u16
            } else {
                403u16
            }) && res.1@ == Seq::<char>::empty(),
        },
{
    let key = match session_key_header {
        Some(key) => key,
        None => {
            return (400, "session key not present".to_owned());
        },
    };
    match check_session(store, key) {
        Some(_) => (200, String::new()),
        None => (403, String::new()),
    }
}

} // verus!
