//! The escrow operations: coverage, creation, top-up, recipient, claims,
//! approval and refund, and the read-only queries.
use vstd::prelude::*;
use crate::assoc::{
    assoc, find_key, lemma_assoc_push, lemma_unique_push,
    lemma_assoc_update_all, lemma_assoc_remove_all, remove_key, keys, keys_of,
};
use crate::balance::{Balance, GenericBalance};
use crate::error::ContractError;
use crate::msg::{
    CreateMsg, Env, whitelist_of, ExecuteMsg, MessageInfo, ReceiveMsg, TokenReceipt, QueryMsg, QueryResponse,
    ListResponse, ClaimRequestsResponse, CoveragePoolViewResponse, DetailsResponse,
};
use crate::state::{ClaimStatus, CoveragePool, Insurance, State, lemma_wf_pool_change, lemma_wf_frame};

verus! {

/// An instruction to move funds out of the escrow.
#[derive(Debug, Clone)]
pub enum Transfer {
    Native { to: String, amount: u128 },
    Cw20 { to: String, contract: String, amount: u128 },
}

/// All of `b` sent to `to`: the native amount when it is positive, then one
/// transfer per token entry.
pub open spec fn transfers_of(to: String, b: GenericBalance) -> Seq<Transfer> {
    (if b.native > 0 {
        seq![Transfer::Native { to, amount: b.native }]
    } else {
        Seq::empty()
    }) + b.cw20@.map_values(|e: (String, u128)| token_transfer(to, e))
}

pub open spec fn token_transfer(to: String, e: (String, u128)) -> Transfer {
    Transfer::Cw20 { to, contract: e.0, amount: e.1 }
}

/// The native part of a contribution.
pub open spec fn native_of(b: Balance) -> u128 {
    match b {
        Balance::Native(a) => a,
        Balance::Cw20 { .. } => 0,
    }
}

/// The token entries of a contribution.
pub open spec fn token_entries(b: Balance) -> Seq<(String, u128)> {
    match b {
        Balance::Native(_) => Seq::empty(),
        Balance::Cw20 { address, amount } => seq![(address, amount)],
    }
}

pub open spec fn listed(w: Seq<String>, s: Seq<char>) -> bool {
    exists|i: int| 0 <= i < w.len() && w[i]@ == s
}

/// The whitelist of a new agreement: the supplied one, plus the funding token
/// when it is not already there.
pub open spec fn effective_whitelist(w: Seq<String>, b: Balance) -> Seq<String> {
    match b {
        Balance::Cw20 { address, .. } => if listed(w, address@) {
            w
        } else {
            w.push(address)
        },
        Balance::Native(_) => w,
    }
}

/// `r` is `Err(e)` when `e` is given, and `Ok` otherwise.
pub open spec fn outcome<T>(r: Result<T, ContractError>, e: Option<ContractError>) -> bool {
    match e {
        Some(e) => r == Err::<T, ContractError>(e),
        None => r is Ok,
    }
}

/// Every agreement but `id`, and the arbiter, are as they were.
pub open spec fn others_unchanged(s1: State, s2: State, id: Seq<char>) -> bool {
    &&& s2.arbiter == s1.arbiter
    &&& forall|k: Seq<char>| k != id ==> #[trigger] s2.insurance(k) == s1.insurance(k)
}

/// The agreement under `id` is gone from `s2`, with its claim.
pub open spec fn settled(s1: State, s2: State, id: Seq<char>) -> bool {
    &&& s1.insurance(id) is Some
    &&& s2.insurance(id) is None
    &&& s2.claim(id) is None
    &&& others_unchanged(s1, s2, id)
}

fn contains_str(v: &Vec<String>, s: &String) -> (r: bool)
    ensures
        r == listed(v@, s@),
{
    let mut i: usize = 0;
    while i < v.len()
        invariant
            i <= v@.len(),
            forall|j: int| 0 <= j < i ==> v@[j]@ != s@,
        decreases v@.len() - i,
    {
        if v[i] == *s {
            return true;
        }
        i = i + 1;
    }
    false
}

/// The transfers that pay `balance` out to `to`.
pub fn send_tokens(to: &String, balance: &GenericBalance) -> (r: Vec<Transfer>)
    ensures
        r@ == transfers_of(*to, *balance),
{
    let mut msgs: Vec<Transfer> = Vec::new();
    if balance.native > 0 {
        msgs.push(Transfer::Native { to: to.clone(), amount: balance.native });
    }
    let ghost all = transfers_of(*to, *balance);
    let ghost n = msgs@.len();
    assert(msgs@ =~= all.take(n as int));
    let mut i: usize = 0;
    while i < balance.cw20.len()
        invariant
            i <= balance.cw20@.len(),
            all == transfers_of(*to, *balance),
            all.len() == n + balance.cw20@.len(),
            msgs@ == all.take(n + i),
        decreases balance.cw20@.len() - i,
    {
        let contract = balance.cw20[i].0.clone();
        let t = Transfer::Cw20 { to: to.clone(), contract, amount: balance.cw20[i].1 };
        assert(t == all[n + i]);
        msgs.push(t);
        i = i + 1;
        assert(msgs@ =~= all.take(n + i));
    }
    assert(msgs@ =~= all);
    msgs
}

/// A native payment of `amount` from the coverage pool to `to`.
#[allow(dead_code)]
fn send_from_cp(to: &String, amount: u128) -> (r: Vec<Transfer>)
    ensures
        r@ == seq![Transfer::Native { to: *to, amount }],
{
    let mut v: Vec<Transfer> = Vec::new();
    v.push(Transfer::Native { to: to.clone(), amount });
    v
}

/// A fresh escrow whose agreements are all arbitrated by `arbiter`.
pub fn instantiate(arbiter: String) -> (r: State)
    ensures
        r.wf(),
        r.arbiter == arbiter,
        r.coverage_pool is None,
        r.insurances@.len() == 0,
        r.claims@.len() == 0,
{
    State { arbiter, coverage_pool: None, insurances: Vec::new(), claims: Vec::new() }
}

/// `s2` is `s1` with `b` added to the pool, which it creates when absent.
pub open spec fn covered(s1: State, s2: State, b: Balance) -> bool {
    &&& s2.insurances == s1.insurances
    &&& s2.claims == s1.claims
    &&& s2.arbiter == s1.arbiter
    &&& s2.pool() matches Some(p) && match s1.pool() {
        None => p.native == native_of(b) && p.cw20@ == token_entries(b),
        Some(p0) => GenericBalance::added(p0, p, b),
    }
}

pub open spec fn provide_coverage_error(s: State, b: Balance) -> Option<ContractError> {
    if b.spec_is_empty() {
        Some(ContractError::EmptyBalance {})
    } else if s.pool() matches Some(p) && !p.can_add(&b) {
        Some(ContractError::Overflow {})
    } else {
        None
    }
}

/// Adds a contribution to the coverage pool, creating the pool on the first one.
pub fn execute_provide_coverage(state: &mut State, balance: Balance) -> (r: Result<(), ContractError>)
    requires
        old(state).wf(),
    ensures
        final(state).wf(),
        outcome(r, provide_coverage_error(*old(state), balance)),
        r is Err ==> *final(state) == *old(state),
        r is Ok ==> covered(*old(state), *final(state), balance),
{
    if balance.is_empty() {
        return Err(ContractError::EmptyBalance {});
    }
    match state.coverage_pool.take() {
        None => {
            let ghost b = balance;
            state.coverage_pool = Some(CoveragePool { pool: GenericBalance::from_balance(balance) });
            assert(state.pool()->Some_0.native == native_of(b));
            assert(state.pool()->Some_0.cw20@ == token_entries(b));
        },
        Some(mut cp) => {
            if !cp.pool.fits(&balance) {
                state.coverage_pool = Some(cp);
                return Err(ContractError::Overflow {});
            }
            let ghost p0 = cp.pool;
            let ghost b = balance;
            cp.pool.add_tokens(balance);
            state.coverage_pool = Some(cp);
            assert(old(state).pool() == Some(p0));
            assert(GenericBalance::added(p0, state.pool()->Some_0, b));
        },
    }
    proof {
        lemma_wf_pool_change(*old(state), *state);
    }
    Ok(())
}

pub open spec fn create_error(s: State, msg: CreateMsg, b: Balance) -> Option<ContractError> {
    if b.spec_is_empty() {
        Some(ContractError::EmptyBalance {})
    } else if s.pool() is None {
        Some(ContractError::NotFound {})
    } else if native_of(b) > s.pool()->Some_0.native {
        Some(ContractError::InsufficientCover {})
    } else if s.insurance(msg.id@) is Some {
        Some(ContractError::AlreadyInUse {})
    } else {
        None
    }
}

/// `ins` is the agreement that `msg`, funded with `b` by `sender`, creates in `s`.
pub open spec fn is_created(ins: Insurance, s: State, msg: CreateMsg, b: Balance, sender: String) -> bool {
    &&& ins.arbiter == s.arbiter
    &&& ins.recipient == msg.recipient
    &&& ins.source == sender
    &&& ins.title == msg.title
    &&& ins.description == msg.description
    &&& ins.end_height == msg.end_height
    &&& ins.end_time == msg.end_time
    &&& ins.balance.native == native_of(b)
    &&& ins.balance.cw20@ == token_entries(b)
    &&& ins.cw20_whitelist@ == effective_whitelist(whitelist_of(msg.cw20_whitelist), b)
}

/// `s2` is `s1` with the agreement that `msg` describes added.
pub open spec fn created(s1: State, s2: State, msg: CreateMsg, b: Balance, sender: String) -> bool {
    &&& s2.coverage_pool == s1.coverage_pool
    &&& s2.claims == s1.claims
    &&& others_unchanged(s1, s2, msg.id@)
    &&& s2.insurance(msg.id@) matches Some(ins) && is_created(ins, s1, msg, b, sender)
}

/// Opens a new agreement under `msg.id`, funded by `balance` from `sender`.
/// The pool must hold at least the agreement's native amount; it is checked,
/// not reserved.
pub fn execute_create(state: &mut State, msg: CreateMsg, balance: Balance, sender: &String) -> (r: Result<(), ContractError>)
    requires
        old(state).wf(),
    ensures
        final(state).wf(),
        outcome(r, create_error(*old(state), msg, balance)),
        r is Err ==> *final(state) == *old(state),
        r is Ok ==> created(*old(state), *final(state), msg, balance, *sender),
{
    if balance.is_empty() {
        return Err(ContractError::EmptyBalance {});
    }
    let mut cw20_whitelist = msg.addr_whitelist();
    let native: u128 = match &balance {
        Balance::Native(a) => *a,
        Balance::Cw20 { address, .. } => {
            if !contains_str(&cw20_whitelist, address) {
                cw20_whitelist.push(address.clone());
            }
            0
        },
    };
    assert(cw20_whitelist@ == effective_whitelist(whitelist_of(msg.cw20_whitelist), balance));
    let insurance_balance = GenericBalance::from_balance(balance);
    let pool_native: u128 = match &state.coverage_pool {
        None => {
            return Err(ContractError::NotFound {});
        },
        Some(cp) => cp.pool.native,
    };
    if native > pool_native {
        return Err(ContractError::InsufficientCover {});
    }
    if find_key(&state.insurances, &msg.id).is_some() {
        return Err(ContractError::AlreadyInUse {});
    }
    let insurance = Insurance {
        arbiter: state.arbiter.clone(),
        recipient: msg.recipient,
        source: sender.clone(),
        title: msg.title,
        description: msg.description,
        end_height: msg.end_height,
        end_time: msg.end_time,
        balance: insurance_balance,
        cw20_whitelist,
    };
    let ghost s = state.insurances@;
    let entry = (msg.id, insurance);
    proof {
        lemma_unique_push(s, entry);
        assert forall|k: Seq<char>| #[trigger] assoc(s.push(entry), k) == (if entry.0@ == k { Some(entry.1) } else { assoc(s, k) }) by {
            lemma_assoc_push(s, entry, k);
        }
    }
    state.insurances.push(entry);
    assert(entry.1.arbiter == old(state).arbiter);
    assert(entry.1.recipient == msg.recipient);
    assert(entry.1.source == *sender);
    assert(entry.1.title == msg.title);
    assert(entry.1.balance.native == native_of(balance));
    assert(entry.1.balance.cw20@ == token_entries(balance));
    assert(entry.1.cw20_whitelist@ == effective_whitelist(whitelist_of(msg.cw20_whitelist), balance));
    assert(is_created(entry.1, *old(state), msg, balance, *sender));
    assert(final(state).insurance(msg.id@) == Some(entry.1));
    assert forall|k: Seq<char>| #[trigger] state.insurance(k) is Some implies state.insurance(k)->Some_0.balance.wf() by {
        if k != msg.id@ {
            assert(state.insurance(k) == old(state).insurance(k));
        }
    }
    assert forall|k: Seq<char>| #[trigger] state.claim(k) is Some implies state.insurance(k) is Some by {
        assert(old(state).claim(k) is Some);
        if k != msg.id@ {
            assert(state.insurance(k) == old(state).insurance(k));
        }
    }
    Ok(())
}

} // verus!

verus! {

/// Claims on every agreement but `id` are as they were.
pub open spec fn other_claims_unchanged(s1: State, s2: State, id: Seq<char>) -> bool {
    forall|k: Seq<char>| k != id ==> #[trigger] s2.claim(k) == s1.claim(k)
}

/// `s2` is `s1` with the recipient of `id` set to `recipient`.
pub open spec fn recipient_set(s1: State, s2: State, id: String, recipient: String) -> bool {
    &&& s2.coverage_pool == s1.coverage_pool
    &&& s2.claims == s1.claims
    &&& others_unchanged(s1, s2, id@)
    &&& s2.insurance(id@) == Some(Insurance { recipient: Some(recipient), ..s1.insurance(id@)->Some_0 })
}

pub open spec fn set_recipient_error(s: State, caller: String, id: String) -> Option<ContractError> {
    match s.insurance(id@) {
        None => Some(ContractError::NotFound {}),
        Some(ins) => if caller@ != ins.arbiter@ {
            Some(ContractError::Unauthorized {})
        } else {
            None
        },
    }
}

/// Sets the recipient of agreement `id`; only its arbiter may.
pub fn execute_set_recipient(state: &mut State, caller: &String, id: String, recipient: String) -> (r: Result<(), ContractError>)
    requires
        old(state).wf(),
    ensures
        final(state).wf(),
        outcome(r, set_recipient_error(*old(state), *caller, id)),
        r is Err ==> *final(state) == *old(state),
        r is Ok ==> recipient_set(*old(state), *final(state), id, recipient),
{
    let i = match find_key(&state.insurances, &id) {
        None => {
            return Err(ContractError::NotFound {});
        },
        Some(i) => i,
    };
    if !(*caller == state.insurances[i].1.arbiter) {
        return Err(ContractError::Unauthorized {});
    }
    let ghost s = state.insurances@;
    let (key, mut ins) = state.insurances.remove(i);
    ins.recipient = Some(recipient);
    let ghost updated = ins;
    state.insurances.insert(i, (key, ins));
    proof {
        assert(state.insurances@ =~= s.update(i as int, (s[i as int].0, updated)));
        lemma_assoc_update_all(s, i as int, updated);
        lemma_wf_frame(*old(state), *state, id@);
    }
    Ok(())
}

/// `s2` is `s1` with `b` added to the balance of `id`.
pub open spec fn topped_up(s1: State, s2: State, id: String, b: Balance) -> bool {
    &&& s2.coverage_pool == s1.coverage_pool
    &&& s2.claims == s1.claims
    &&& others_unchanged(s1, s2, id@)
    &&& s2.insurance(id@) matches Some(ins) && {
        &&& ins == (Insurance { balance: ins.balance, ..s1.insurance(id@)->Some_0 })
        &&& GenericBalance::added(s1.insurance(id@)->Some_0.balance, ins.balance, b)
    }
}

pub open spec fn top_up_error(s: State, id: String, b: Balance) -> Option<ContractError> {
    if b.spec_is_empty() {
        Some(ContractError::EmptyBalance {})
    } else {
        match s.insurance(id@) {
            None => Some(ContractError::NotFound {}),
            Some(ins) => if b matches Balance::Cw20 { address, .. } && !ins.whitelisted(address@) {
                Some(ContractError::NotInWhitelist {})
            } else if !ins.balance.can_add(&b) {
                Some(ContractError::Overflow {})
            } else {
                None
            },
        }
    }
}

/// Adds a contribution to agreement `id`. A token contribution must come from
/// a whitelisted contract.
pub fn execute_top_up(state: &mut State, id: String, balance: Balance) -> (r: Result<(), ContractError>)
    requires
        old(state).wf(),
    ensures
        final(state).wf(),
        outcome(r, top_up_error(*old(state), id, balance)),
        r is Err ==> *final(state) == *old(state),
        r is Ok ==> topped_up(*old(state), *final(state), id, balance),
{
    if balance.is_empty() {
        return Err(ContractError::EmptyBalance {});
    }
    let i = match find_key(&state.insurances, &id) {
        None => {
            return Err(ContractError::NotFound {});
        },
        Some(i) => i,
    };
    if let Balance::Cw20 { address, .. } = &balance {
        if !contains_str(&state.insurances[i].1.cw20_whitelist, address) {
            return Err(ContractError::NotInWhitelist {});
        }
    }
    if !state.insurances[i].1.balance.fits(&balance) {
        return Err(ContractError::Overflow {});
    }
    let ghost s = state.insurances@;
    let (key, mut ins) = state.insurances.remove(i);
    ins.balance.add_tokens(balance);
    let ghost updated = ins;
    state.insurances.insert(i, (key, ins));
    proof {
        assert(state.insurances@ =~= s.update(i as int, (s[i as int].0, updated)));
        lemma_assoc_update_all(s, i as int, updated);
        lemma_wf_frame(*old(state), *state, id@);
    }
    Ok(())
}

/// `s2` is `s1` with a pending claim on `id`.
pub open spec fn claim_filed(s1: State, s2: State, id: String) -> bool {
    &&& s2.coverage_pool == s1.coverage_pool
    &&& s2.insurances == s1.insurances
    &&& s2.arbiter == s1.arbiter
    &&& other_claims_unchanged(s1, s2, id@)
    &&& s2.claim(id@) == Some(ClaimStatus::PendingApproval)
}

pub open spec fn claim_error(s: State, caller: String, id: String, env: Env) -> Option<ContractError> {
    match s.insurance(id@) {
        None => Some(ContractError::NotFound {}),
        Some(ins) => if caller@ != ins.arbiter@ {
            Some(ContractError::Unauthorized {})
        } else if ins.spec_is_expired(env) {
            Some(ContractError::Expired {})
        } else if s.claim(id@) is Some {
            Some(ContractError::AlreadyInUse {})
        } else {
            None
        },
    }
}

/// Files a claim on agreement `id`; only its arbiter may, before expiry, and
/// only one claim may be open at a time.
pub fn execute_claim_request(state: &mut State, env: &Env, caller: &String, id: String) -> (r: Result<(), ContractError>)
    requires
        old(state).wf(),
    ensures
        final(state).wf(),
        outcome(r, claim_error(*old(state), *caller, id, *env)),
        r is Err ==> *final(state) == *old(state),
        r is Ok ==> claim_filed(*old(state), *final(state), id),
{
    let i = match find_key(&state.insurances, &id) {
        None => {
            return Err(ContractError::NotFound {});
        },
        Some(i) => i,
    };
    if !(*caller == state.insurances[i].1.arbiter) {
        return Err(ContractError::Unauthorized {});
    }
    if state.insurances[i].1.is_expired(env) {
        return Err(ContractError::Expired {});
    }
    if find_key(&state.claims, &id).is_some() {
        return Err(ContractError::AlreadyInUse {});
    }
    let ghost c = state.claims@;
    let entry = (id, ClaimStatus::PendingApproval);
    proof {
        lemma_unique_push(c, entry);
        assert forall|k: Seq<char>| #[trigger] assoc(c.push(entry), k) == (if entry.0@ == k { Some(entry.1) } else { assoc(c, k) }) by {
            lemma_assoc_push(c, entry, k);
        }
    }
    state.claims.push(entry);
    proof {
        lemma_wf_frame(*old(state), *state, id@);
    }
    Ok(())
}

/// `s2` is `s1` after paying `id` out to its recipient with `t`, debiting the pool.
pub open spec fn approved(s1: State, s2: State, id: String, t: Seq<Transfer>) -> bool {
    let ins = s1.insurance(id@)->Some_0;
    &&& t == transfers_of(ins.recipient->Some_0, ins.balance)
    &&& settled(s1, s2, id@)
    &&& other_claims_unchanged(s1, s2, id@)
    &&& s2.pool() matches Some(p) && p.native == s1.pool()->Some_0.native - ins.balance.native
        && p.cw20 == s1.pool()->Some_0.cw20
}

pub open spec fn approve_error(s: State, caller: String, id: String, env: Env) -> Option<ContractError> {
    match s.insurance(id@) {
        None => Some(ContractError::NotFound {}),
        Some(ins) => match s.pool() {
            None => Some(ContractError::NotFound {}),
            Some(p) => if caller@ != ins.arbiter@ {
                Some(ContractError::Unauthorized {})
            } else if ins.spec_is_expired(env) {
                Some(ContractError::Expired {})
            } else if ins.recipient is None {
                Some(ContractError::RecipientNotSet {})
            } else if ins.balance.native > p.native {
                Some(ContractError::InsufficientCover {})
            } else {
                None
            },
        },
    }
}

/// Pays agreement `id` out to its recipient; only its arbiter may, before
/// expiry, once a recipient is set. The pool is debited by the agreement's
/// native amount, and the agreement and its claim are removed.
pub fn execute_approve(state: &mut State, env: &Env, caller: &String, id: String) -> (r: Result<Vec<Transfer>, ContractError>)
    requires
        old(state).wf(),
    ensures
        final(state).wf(),
        outcome(r, approve_error(*old(state), *caller, id, *env)),
        r is Err ==> *final(state) == *old(state),
        r matches Ok(t) ==> approved(*old(state), *final(state), id, t@),
{
    let i = match find_key(&state.insurances, &id) {
        None => {
            return Err(ContractError::NotFound {});
        },
        Some(i) => i,
    };
    let pool_native: u128 = match &state.coverage_pool {
        None => {
            return Err(ContractError::NotFound {});
        },
        Some(cp) => cp.pool.native,
    };
    if !(*caller == state.insurances[i].1.arbiter) {
        return Err(ContractError::Unauthorized {});
    }
    if state.insurances[i].1.is_expired(env) {
        return Err(ContractError::Expired {});
    }
    let recipient = match &state.insurances[i].1.recipient {
        None => {
            return Err(ContractError::RecipientNotSet {});
        },
        Some(r) => r.clone(),
    };
    let native = state.insurances[i].1.balance.native;
    if native > pool_native {
        return Err(ContractError::InsufficientCover {});
    }
    let mut cp = state.coverage_pool.take().unwrap();
    let debited = cp.pool.remove_tokens(native);
    assert(debited is Ok);
    state.coverage_pool = Some(cp);
    let ghost s = state.insurances@;
    proof {
        lemma_assoc_remove_all(s, i as int);
    }
    let (_, insurance) = state.insurances.remove(i);
    let _ = remove_key(&mut state.claims, &id);
    proof {
        lemma_wf_frame(*old(state), *state, id@);
    }
    let messages = send_tokens(&recipient, &insurance.balance);
    Ok(messages)
}

/// `s2` is `s1` after returning `id` to its source with `t`.
pub open spec fn refunded(s1: State, s2: State, id: String, t: Seq<Transfer>) -> bool {
    let ins = s1.insurance(id@)->Some_0;
    &&& t == transfers_of(ins.source, ins.balance)
    &&& settled(s1, s2, id@)
    &&& other_claims_unchanged(s1, s2, id@)
    &&& s2.coverage_pool == s1.coverage_pool
}

pub open spec fn refund_error(s: State, caller: String, id: String, env: Env) -> Option<ContractError> {
    match s.insurance(id@) {
        None => Some(ContractError::NotFound {}),
        Some(ins) => if !ins.spec_is_expired(env) && caller@ != ins.arbiter@ {
            Some(ContractError::Unauthorized {})
        } else {
            None
        },
    }
}

/// Returns agreement `id` to its source; the arbiter may at any time, anyone
/// once it has expired. The agreement and its claim are removed.
pub fn execute_refund(state: &mut State, env: &Env, caller: &String, id: String) -> (r: Result<Vec<Transfer>, ContractError>)
    requires
        old(state).wf(),
    ensures
        final(state).wf(),
        outcome(r, refund_error(*old(state), *caller, id, *env)),
        r is Err ==> *final(state) == *old(state),
        r matches Ok(t) ==> refunded(*old(state), *final(state), id, t@),
{
    let i = match find_key(&state.insurances, &id) {
        None => {
            return Err(ContractError::NotFound {});
        },
        Some(i) => i,
    };
    if !state.insurances[i].1.is_expired(env) && !(*caller == state.insurances[i].1.arbiter) {
        return Err(ContractError::Unauthorized {});
    }
    let ghost s = state.insurances@;
    proof {
        lemma_assoc_remove_all(s, i as int);
    }
    let (_, insurance) = state.insurances.remove(i);
    let _ = remove_key(&mut state.claims, &id);
    proof {
        lemma_wf_frame(*old(state), *state, id@);
    }
    let messages = send_tokens(&insurance.source, &insurance.balance);
    Ok(messages)
}

} // verus!

verus! {

/// A contribution of `amount` from token contract `token`.
pub open spec fn token_balance(token: String, amount: u128) -> Balance {
    Balance::Cw20 { address: token, amount }
}

/// `r` fails with `e` leaving the state alone when `e` is given, and otherwise
/// succeeds with `effect`.
pub open spec fn step<T>(r: Result<T, ContractError>, e: Option<ContractError>, s1: State, s2: State, effect: bool) -> bool {
    match e {
        Some(e) => r == Err::<T, ContractError>(e) && s2 == s1,
        None => r is Ok && effect,
    }
}

pub open spec fn view_result(r: Result<Vec<Transfer>, ContractError>) -> Result<Seq<Transfer>, ContractError> {
    match r {
        Ok(t) => Ok(t@),
        Err(e) => Err(e),
    }
}

/// What a token transfer notification from contract `token` does.
pub open spec fn received(s1: State, s2: State, token: String, w: TokenReceipt, r: Result<Seq<Transfer>, ContractError>) -> bool {
    let b = token_balance(token, w.amount);
    match w.msg {
        ReceiveMsg::Create(m) => step(r, create_error(s1, m, b), s1, s2, created(s1, s2, m, b, w.sender) && r->Ok_0 == Seq::<Transfer>::empty()),
        ReceiveMsg::TopUp { id } => step(r, top_up_error(s1, id, b), s1, s2, topped_up(s1, s2, id, b) && r->Ok_0 == Seq::<Transfer>::empty()),
        ReceiveMsg::ProvideCoverage {} => step(r, provide_coverage_error(s1, b), s1, s2, covered(s1, s2, b) && r->Ok_0 == Seq::<Transfer>::empty()),
    }
}

/// Handles a token transfer notification sent by token contract `token`:
/// the transferred amount funds the request it carries.
pub fn execute_receive(state: &mut State, token: &String, wrapper: TokenReceipt) -> (r: Result<Vec<Transfer>, ContractError>)
    requires
        old(state).wf(),
    ensures
        final(state).wf(),
        received(*old(state), *final(state), *token, wrapper, view_result(r)),
{
    let balance = Balance::Cw20 { address: token.clone(), amount: wrapper.amount };
    let res = match wrapper.msg {
        ReceiveMsg::Create(msg) => execute_create(state, msg, balance, &wrapper.sender),
        ReceiveMsg::TopUp { id } => execute_top_up(state, id, balance),
        ReceiveMsg::ProvideCoverage {} => execute_provide_coverage(state, balance),
    };
    match res {
        Ok(()) => Ok(Vec::new()),
        Err(e) => Err(e),
    }
}

/// What request `msg`, sent by `info.sender` with `info.funds` attached, does.
pub open spec fn executed(s1: State, s2: State, env: Env, info: MessageInfo, msg: ExecuteMsg, r: Result<Seq<Transfer>, ContractError>) -> bool {
    let b = Balance::Native(info.funds);
    let none = Seq::<Transfer>::empty();
    match msg {
        ExecuteMsg::Create(m) => step(r, create_error(s1, m, b), s1, s2, created(s1, s2, m, b, info.sender) && r->Ok_0 == none),
        ExecuteMsg::SetRecipient { id, recipient } => step(r, set_recipient_error(s1, info.sender, id), s1, s2, recipient_set(s1, s2, id, recipient) && r->Ok_0 == none),
        ExecuteMsg::Approve { id } => step(r, approve_error(s1, info.sender, id, env), s1, s2, approved(s1, s2, id, r->Ok_0)),
        ExecuteMsg::TopUp { id } => step(r, top_up_error(s1, id, b), s1, s2, topped_up(s1, s2, id, b) && r->Ok_0 == none),
        ExecuteMsg::Refund { id } => step(r, refund_error(s1, info.sender, id, env), s1, s2, refunded(s1, s2, id, r->Ok_0)),
        ExecuteMsg::Receive(w) => received(s1, s2, info.sender, w, r),
        ExecuteMsg::Claim { id } => step(r, claim_error(s1, info.sender, id, env), s1, s2, claim_filed(s1, s2, id) && r->Ok_0 == none),
        ExecuteMsg::ProvideCoverage {} => step(r, provide_coverage_error(s1, b), s1, s2, covered(s1, s2, b) && r->Ok_0 == none),
    }
}

/// Routes a request to its operation; returns the transfers to perform.
pub fn execute(state: &mut State, env: Env, info: MessageInfo, msg: ExecuteMsg) -> (r: Result<Vec<Transfer>, ContractError>)
    requires
        old(state).wf(),
    ensures
        final(state).wf(),
        executed(*old(state), *final(state), env, info, msg, view_result(r)),
{
    let unit = |res: Result<(), ContractError>| -> (o: Result<Vec<Transfer>, ContractError>)
        ensures
            o is Ok <==> res is Ok,
            o matches Ok(t) ==> t@ == Seq::<Transfer>::empty(),
            res matches Err(e) ==> o == Err::<Vec<Transfer>, ContractError>(e),
        {
            match res {
                Ok(()) => Ok(Vec::new()),
                Err(e) => Err(e),
            }
        };
    match msg {
        ExecuteMsg::Create(m) => unit(execute_create(state, m, Balance::Native(info.funds), &info.sender)),
        ExecuteMsg::SetRecipient { id, recipient } => unit(execute_set_recipient(state, &info.sender, id, recipient)),
        ExecuteMsg::Approve { id } => execute_approve(state, &env, &info.sender, id),
        ExecuteMsg::TopUp { id } => unit(execute_top_up(state, id, Balance::Native(info.funds))),
        ExecuteMsg::Refund { id } => execute_refund(state, &env, &info.sender, id),
        ExecuteMsg::Receive(w) => execute_receive(state, &info.sender, w),
        ExecuteMsg::Claim { id } => unit(execute_claim_request(state, &env, &info.sender, id)),
        ExecuteMsg::ProvideCoverage {} => unit(execute_provide_coverage(state, Balance::Native(info.funds))),
    }
}

/// The ids of all agreements.
pub fn query_list(state: &State) -> (r: ListResponse)
    ensures
        r.insurances@ == keys_of(state.insurances@),
{
    ListResponse { insurances: keys(&state.insurances) }
}

/// The ids of all agreements with an open claim.
pub fn query_claims_request(state: &State) -> (r: ClaimRequestsResponse)
    ensures
        r.insurances@ == keys_of(state.claims@),
{
    ClaimRequestsResponse { insurances: keys(&state.claims) }
}

/// The native amount of the coverage pool; not found before the first contribution.
pub fn query_coverage_pool(state: &State) -> (r: Result<CoveragePoolViewResponse, ContractError>)
    ensures
        match state.pool() {
            None => r == Err::<CoveragePoolViewResponse, ContractError>(ContractError::NotFound {}),
            Some(p) => r matches Ok(v) && v.pool == p.native,
        },
{
    match &state.coverage_pool {
        None => Err(ContractError::NotFound {}),
        Some(cp) => Ok(CoveragePoolViewResponse { pool: cp.pool.native }),
    }
}

/// `d` describes agreement `ins` stored under `id`.
pub open spec fn describes(d: DetailsResponse, id: String, ins: Insurance) -> bool {
    &&& d.id == id
    &&& d.arbiter == ins.arbiter
    &&& d.recipient == ins.recipient
    &&& d.source == ins.source
    &&& d.title == ins.title
    &&& d.description == ins.description
    &&& d.end_height == ins.end_height
    &&& d.end_time == ins.end_time
    &&& d.native_balance == ins.balance.native
    &&& d.cw20_balance@ == ins.balance.cw20@
    &&& d.cw20_whitelist@ == ins.cw20_whitelist@
}

/// Everything about agreement `id`.
pub fn query_details(state: &State, id: String) -> (r: Result<DetailsResponse, ContractError>)
    requires
        state.wf(),
    ensures
        match state.insurance(id@) {
            None => r == Err::<DetailsResponse, ContractError>(ContractError::NotFound {}),
            Some(ins) => r matches Ok(d) && describes(d, id, ins),
        },
{
    let i = match find_key(&state.insurances, &id) {
        None => {
            return Err(ContractError::NotFound {});
        },
        Some(i) => i,
    };
    let insurance = &state.insurances[i].1;
    let recipient = match &insurance.recipient {
        None => None,
        Some(r) => Some(r.clone()),
    };
    Ok(DetailsResponse {
        id,
        arbiter: insurance.arbiter.clone(),
        recipient,
        source: insurance.source.clone(),
        title: insurance.title.clone(),
        description: insurance.description.clone(),
        end_height: insurance.end_height,
        end_time: insurance.end_time,
        native_balance: insurance.balance.native,
        cw20_balance: insurance.balance.cw20_entries(),
        cw20_whitelist: insurance.human_whitelist(),
    })
}

/// Answers a read-only request.
pub fn query(state: &State, msg: QueryMsg) -> (r: Result<QueryResponse, ContractError>)
    requires
        state.wf(),
    ensures
        match msg {
            QueryMsg::List {} => r matches Ok(QueryResponse::List(l)) && l.insurances@ == keys_of(state.insurances@),
            QueryMsg::ListClaims {} => r matches Ok(QueryResponse::ListClaims(l)) && l.insurances@ == keys_of(state.claims@),
            QueryMsg::ListCoveragePool {} => match state.pool() {
                None => r == Err::<QueryResponse, ContractError>(ContractError::NotFound {}),
                Some(p) => r matches Ok(QueryResponse::ListCoveragePool(v)) && v.pool == p.native,
            },
            QueryMsg::Details { id } => match state.insurance(id@) {
                None => r == Err::<QueryResponse, ContractError>(ContractError::NotFound {}),
                Some(ins) => r matches Ok(QueryResponse::Details(d)) && describes(d, id, ins),
            },
        },
{
    match msg {
        QueryMsg::List {} => Ok(QueryResponse::List(query_list(state))),
        QueryMsg::Details { id } => match query_details(state, id) {
            Ok(d) => Ok(QueryResponse::Details(d)),
            Err(e) => Err(e),
        },
        QueryMsg::ListClaims {} => Ok(QueryResponse::ListClaims(query_claims_request(state))),
        QueryMsg::ListCoveragePool {} => match query_coverage_pool(state) {
            Ok(v) => Ok(QueryResponse::ListCoveragePool(v)),
            Err(e) => Err(e),
        },
    }
}

} // verus!
