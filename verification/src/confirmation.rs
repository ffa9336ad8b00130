use vstd::prelude::*;

use crate::store::{Store, StoreView, SubscriptionStatus};

verus! {

/// The confirm query payload as the inbound layer decodes it: the token the
/// visitor presented.
#[derive(Debug)]
pub struct ConfirmPayload {
    pub subscription_token: String,
}

/// Failure of a confirmation.
#[derive(Clone, Copy, Debug, PartialEq, Eq, Structural)]
pub enum ConfirmationError {
    /// No subscriber was ever issued the presented token.
    UnknownToken,
}

/// Confirmation service: resolves the presented token and flips the
/// subscriber it was issued for to confirmed. An unknown token is refused
/// and changes nothing; a known token always succeeds, and presenting it
/// again succeeds again without further change.
pub fn confirm(store: &mut Store, token: &str) -> (r: Result<(), ConfirmationError>)
    requires
        old(store)@.wf(),
    ensures
        final(store)@.wf(),
        r is Ok <==> old(store)@.has_token(token@),
        match r {
            Ok(_) => final(store)@ == old(store)@.with_confirmed(old(store)@.token_owner(token@)),
            Err(e) => final(store)@ == old(store)@ && e == ConfirmationError::UnknownToken,
        },
{
    match store.resolve_token(token) {
        Ok(Some(id)) => {
            let marked = store.mark_confirmed(id);
            proof {
                assert(marked is Ok);
            }
            Ok(())
        },
        Ok(None) => Err(ConfirmationError::UnknownToken),
        Err(_) => Err(ConfirmationError::UnknownToken),
    }
}

/// Law: a successful confirmation leaves the subscriber row its token pairs
/// with in the confirmed state.
pub proof fn lemma_confirm_sets_status(sv: StoreView, t: Seq<char>)
    requires
        sv.wf(),
        sv.has_token(t),
    ensures
        sv.with_confirmed(sv.token_owner(t)).subscribers[sv.token_index(t)].status
            == SubscriptionStatus::Confirmed,
{
    let i = sv.token_index(t);
    assert(0 <= i < sv.tokens.len() && sv.tokens[i].token == t);
    assert(sv.subscribers[i].id == sv.tokens[i].subscriber_id);
}

/// Law: confirming is idempotent over the same token — after one successful
/// confirmation the token still resolves to the same subscriber, and a
/// second confirmation changes nothing.
pub proof fn lemma_confirm_twice(sv: StoreView, t: Seq<char>)
    requires
        sv.wf(),
        sv.has_token(t),
    ensures
        sv.with_confirmed(sv.token_owner(t)).has_token(t),
        sv.with_confirmed(sv.token_owner(t)).token_owner(t) == sv.token_owner(t),
        sv.with_confirmed(sv.token_owner(t)).with_confirmed(
            sv.with_confirmed(sv.token_owner(t)).token_owner(t),
        ) == sv.with_confirmed(sv.token_owner(t)),
{
    let id = sv.token_owner(t);
    assert(sv.with_confirmed(id).tokens == sv.tokens);
    crate::store::lemma_confirm_idempotent(sv, id);
}

} // verus!
