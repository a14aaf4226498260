//! Properties that hold across operations of the escrow.
use vstd::prelude::*;
use crate::balance::Balance;
use crate::contract::{
    approve_error, approved, claim_error, create_error, native_of, outcome, refund_error,
    refunded, settled, top_up_error,
};
use crate::error::ContractError;
use crate::msg::{CreateMsg, Env};
use crate::state::State;

verus! {

/// An agreement is paid out or returned at most once: after an approval or a
/// refund the record and any claim on it are gone, and a further approval, refund or top-up of the
/// same id fails with not-found.
pub proof fn lemma_settlement_is_final(
    s1: State,
    s2: State,
    id: String,
    t: Seq<crate::contract::Transfer>,
    caller: String,
    env: Env,
    b: Balance,
)
    requires
        approved(s1, s2, id, t) || refunded(s1, s2, id, t),
    ensures
        s2.insurance(id@) is None,
        s2.claim(id@) is None,
        approve_error(s2, caller, id, env) == Some(ContractError::NotFound {}),
        refund_error(s2, caller, id, env) == Some(ContractError::NotFound {}),
        !b.spec_is_empty() ==> top_up_error(s2, id, b) == Some(ContractError::NotFound {}),
{
    assert(settled(s1, s2, id@));
}

/// Creating an agreement whose native amount exceeds the pool's fails with
/// insufficient cover and leaves the pool and every agreement as they were.
pub proof fn lemma_create_beyond_cover_fails(
    s1: State,
    s2: State,
    msg: CreateMsg,
    b: Balance,
    r: Result<(), ContractError>,
)
    requires
        s1.pool() matches Some(p) && native_of(b) > p.native,
        outcome(r, create_error(s1, msg, b)),
        r is Err ==> s2 == s1,
    ensures
        r == Err::<(), ContractError>(ContractError::InsufficientCover {}),
        s2.pool() == s1.pool(),
        forall|k: Seq<char>| #[trigger] s2.insurance(k) == s1.insurance(k),
{
}

/// A top-up with a token outside the agreement's whitelist fails with
/// not-in-whitelist and leaves the agreement's balance alone.
pub proof fn lemma_top_up_outside_whitelist_fails(
    s1: State,
    s2: State,
    id: String,
    b: Balance,
    r: Result<(), ContractError>,
)
    requires
        !b.spec_is_empty(),
        s1.insurance(id@) matches Some(ins) && b matches Balance::Cw20 { address, .. }
            && !ins.whitelisted(address@),
        outcome(r, top_up_error(s1, id, b)),
        r is Err ==> s2 == s1,
    ensures
        r == Err::<(), ContractError>(ContractError::NotInWhitelist {}),
        s2.insurance(id@) == s1.insurance(id@),
{
}

/// An empty top-up always fails with empty-balance.
pub proof fn lemma_empty_top_up_fails(s: State, id: String, b: Balance)
    requires
        b.spec_is_empty(),
    ensures
        top_up_error(s, id, b) == Some(ContractError::EmptyBalance {}),
{
}

/// Approval without a recipient fails with recipient-not-set, even by the
/// arbiter before expiry.
pub proof fn lemma_approve_needs_recipient(s: State, caller: String, id: String, env: Env)
    requires
        s.pool() is Some,
        s.insurance(id@) matches Some(ins) && caller@ == ins.arbiter@ && !ins.spec_is_expired(env)
            && ins.recipient is None,
    ensures
        approve_error(s, caller, id, env) == Some(ContractError::RecipientNotSet {}),
{
}

/// While a claim is open on an agreement, filing another fails with
/// already-in-use.
pub proof fn lemma_one_open_claim(s: State, caller: String, id: String, env: Env)
    requires
        s.claim(id@) is Some,
        s.insurance(id@) matches Some(ins) && caller@ == ins.arbiter@ && !ins.spec_is_expired(env),
    ensures
        claim_error(s, caller, id, env) == Some(ContractError::AlreadyInUse {}),
{
}

} // verus!
