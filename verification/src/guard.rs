//! The access guard: one bearer token, compared with the configured secret.

use crate::error::StoreError;
use vstd::prelude::*;

verus! {

/// Whether a presented token opens the guard: it is there and equals the secret.
pub open spec fn authorized(secret: Seq<char>, presented: Option<Seq<char>>) -> bool {
    presented == Some(secret)
}

/// Admits the request if and only if a token was presented and it equals the
/// secret, character for character; refuses with `Unauthorized` otherwise.
pub fn authorize(secret: &String, presented: &Option<String>) -> (r: Result<(), StoreError>)
    ensures
        authorized(secret@, crate::config::text_of(*presented)) ==> r == Ok::<(), StoreError>(()),
        !authorized(secret@, crate::config::text_of(*presented)) ==> r == Err::<(), StoreError>(
            StoreError::Unauthorized,
        ),
{
    match presented {
        Some(token) => {
            if *token == *secret {
                Ok(())
            } else {
                Err(StoreError::Unauthorized)
            }
        },
        None => Err(StoreError::Unauthorized),
    }
}

} // verus!
