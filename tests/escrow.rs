use peershield::balance::{Balance, GenericBalance};
use peershield::contract::{
    execute, execute_approve, execute_claim_request, execute_create, execute_provide_coverage,
    execute_receive, execute_refund, execute_set_recipient, execute_top_up, instantiate, query,
    query_claims_request, query_coverage_pool, query_details, query_list, Transfer,
};
use peershield::error::ContractError;
use peershield::msg::{
    is_valid_name, CreateMsg, Env, ExecuteMsg, MessageInfo, QueryMsg, QueryResponse, ReceiveMsg,
    TokenReceipt,
};
use peershield::state::State;

const ARBITER: &str = "arbiter";

fn s(x: &str) -> String {
    x.to_string()
}

fn env() -> Env {
    Env { height: 100, time: 1000 }
}

fn create_msg(id: &str) -> CreateMsg {
    CreateMsg {
        id: s(id),
        recipient: None,
        title: s("title"),
        description: s("description"),
        end_height: None,
        end_time: None,
        cw20_whitelist: None,
    }
}

fn with_pool(native: u128) -> State {
    let mut st = instantiate(s(ARBITER));
    execute_provide_coverage(&mut st, Balance::Native(native)).unwrap();
    st
}

fn pool_native(st: &State) -> u128 {
    query_coverage_pool(st).unwrap().pool
}

#[test]
fn approve_debits_pool_and_pays_recipient() {
    let mut st = with_pool(500);
    execute_create(&mut st, create_msg("A"), Balance::Native(100), &s("creator")).unwrap();
    assert_eq!(pool_native(&st), 500);
    execute_set_recipient(&mut st, &s(ARBITER), s("A"), s("R")).unwrap();
    let transfers = execute_approve(&mut st, &env(), &s(ARBITER), s("A")).unwrap();
    assert_eq!(pool_native(&st), 400);
    assert!(query_list(&st).insurances.is_empty());
    assert_eq!(transfers.len(), 1);
    match &transfers[0] {
        Transfer::Native { to, amount } => {
            assert_eq!(to, "R");
            assert_eq!(*amount, 100);
        }
        other => panic!("unexpected transfer {:?}", other),
    }
}

#[test]
fn expired_agreement_is_created_refused_approval_and_refunded() {
    let mut st = with_pool(500);
    let mut msg = create_msg("B");
    msg.end_height = Some(env().height);
    execute_create(&mut st, msg, Balance::Native(50), &s("creator")).unwrap();
    execute_set_recipient(&mut st, &s(ARBITER), s("B"), s("R")).unwrap();
    assert_eq!(
        execute_approve(&mut st, &env(), &s(ARBITER), s("B")).unwrap_err(),
        ContractError::Expired {}
    );
    let transfers = execute_refund(&mut st, &env(), &s("anyone"), s("B")).unwrap();
    assert_eq!(transfers.len(), 1);
    match &transfers[0] {
        Transfer::Native { to, amount } => {
            assert_eq!(to, "creator");
            assert_eq!(*amount, 50);
        }
        other => panic!("unexpected transfer {:?}", other),
    }
    assert_eq!(pool_native(&st), 500);
}

#[test]
fn coverage_contributions_add_up() {
    let mut st = instantiate(s(ARBITER));
    execute_provide_coverage(&mut st, Balance::Native(200)).unwrap();
    execute_provide_coverage(&mut st, Balance::Native(300)).unwrap();
    match query(&st, QueryMsg::ListCoveragePool {}).unwrap() {
        QueryResponse::ListCoveragePool(v) => assert_eq!(v.pool, 500),
        other => panic!("unexpected response {:?}", other),
    }
}

#[test]
fn settled_agreement_cannot_be_settled_again() {
    let mut st = with_pool(500);
    execute_create(&mut st, create_msg("A"), Balance::Native(100), &s("creator")).unwrap();
    execute_refund(&mut st, &env(), &s(ARBITER), s("A")).unwrap();
    assert_eq!(
        execute_approve(&mut st, &env(), &s(ARBITER), s("A")).unwrap_err(),
        ContractError::NotFound {}
    );
    assert_eq!(
        execute_refund(&mut st, &env(), &s(ARBITER), s("A")).unwrap_err(),
        ContractError::NotFound {}
    );
    assert_eq!(
        execute_top_up(&mut st, s("A"), Balance::Native(5)).unwrap_err(),
        ContractError::NotFound {}
    );
}

#[test]
fn create_beyond_cover_fails_and_changes_nothing() {
    let mut st = with_pool(100);
    execute_create(&mut st, create_msg("A"), Balance::Native(60), &s("creator")).unwrap();
    let err = execute_create(&mut st, create_msg("B"), Balance::Native(101), &s("creator")).unwrap_err();
    assert_eq!(err, ContractError::InsufficientCover {});
    assert_eq!(pool_native(&st), 100);
    assert_eq!(query_list(&st).insurances, vec![s("A")]);
    assert_eq!(query_details(&st, s("A")).unwrap().native_balance, 60);
    // the pool is checked, not reserved
    execute_create(&mut st, create_msg("C"), Balance::Native(100), &s("creator")).unwrap();
}

#[test]
fn create_without_pool_is_not_found() {
    let mut st = instantiate(s(ARBITER));
    let err = execute_create(&mut st, create_msg("A"), Balance::Native(1), &s("creator")).unwrap_err();
    assert_eq!(err, ContractError::NotFound {});
    assert_eq!(query_coverage_pool(&st).unwrap_err(), ContractError::NotFound {});
}

#[test]
fn create_rejects_empty_funds_and_duplicate_ids() {
    let mut st = with_pool(100);
    assert_eq!(
        execute_create(&mut st, create_msg("A"), Balance::Native(0), &s("creator")).unwrap_err(),
        ContractError::EmptyBalance {}
    );
    execute_create(&mut st, create_msg("A"), Balance::Native(10), &s("creator")).unwrap();
    assert_eq!(
        execute_create(&mut st, create_msg("A"), Balance::Native(20), &s("other")).unwrap_err(),
        ContractError::AlreadyInUse {}
    );
    let d = query_details(&st, s("A")).unwrap();
    assert_eq!(d.source, "creator");
    assert_eq!(d.native_balance, 10);
    assert_eq!(d.arbiter, ARBITER);
}

#[test]
fn token_funding_is_whitelisted_automatically() {
    let mut st = with_pool(100);
    let mut msg = create_msg("T");
    msg.cw20_whitelist = Some(vec![s("other_token")]);
    let funding = Balance::Cw20 { address: s("token"), amount: 40 };
    execute_create(&mut st, msg, funding, &s("creator")).unwrap();
    let d = query_details(&st, s("T")).unwrap();
    assert_eq!(d.cw20_whitelist, vec![s("other_token"), s("token")]);
    assert_eq!(d.cw20_balance, vec![(s("token"), 40)]);
    assert_eq!(d.native_balance, 0);
    execute_top_up(&mut st, s("T"), Balance::Cw20 { address: s("token"), amount: 2 }).unwrap();
    execute_top_up(&mut st, s("T"), Balance::Cw20 { address: s("other_token"), amount: 7 }).unwrap();
    let d = query_details(&st, s("T")).unwrap();
    assert_eq!(d.cw20_balance, vec![(s("token"), 42), (s("other_token"), 7)]);
}

#[test]
fn top_up_outside_whitelist_fails() {
    let mut st = with_pool(100);
    execute_create(&mut st, create_msg("A"), Balance::Native(10), &s("creator")).unwrap();
    let err = execute_top_up(&mut st, s("A"), Balance::Cw20 { address: s("evil"), amount: 5 }).unwrap_err();
    assert_eq!(err, ContractError::NotInWhitelist {});
    let d = query_details(&st, s("A")).unwrap();
    assert_eq!(d.native_balance, 10);
    assert!(d.cw20_balance.is_empty());
    assert_eq!(
        execute_top_up(&mut st, s("A"), Balance::Native(0)).unwrap_err(),
        ContractError::EmptyBalance {}
    );
    execute_top_up(&mut st, s("A"), Balance::Native(5)).unwrap();
    assert_eq!(query_details(&st, s("A")).unwrap().native_balance, 15);
}

#[test]
fn top_up_overflow_is_refused() {
    let mut st = with_pool(u128::MAX);
    execute_create(&mut st, create_msg("A"), Balance::Native(u128::MAX), &s("creator")).unwrap();
    assert_eq!(
        execute_top_up(&mut st, s("A"), Balance::Native(1)).unwrap_err(),
        ContractError::Overflow {}
    );
    assert_eq!(
        execute_provide_coverage(&mut st, Balance::Native(1)).unwrap_err(),
        ContractError::Overflow {}
    );
    assert_eq!(pool_native(&st), u128::MAX);
}

#[test]
fn approve_without_recipient_fails() {
    let mut st = with_pool(100);
    execute_create(&mut st, create_msg("A"), Balance::Native(10), &s("creator")).unwrap();
    assert_eq!(
        execute_approve(&mut st, &env(), &s(ARBITER), s("A")).unwrap_err(),
        ContractError::RecipientNotSet {}
    );
}

#[test]
fn only_arbiter_sets_recipient_and_approves() {
    let mut st = with_pool(100);
    let mut msg = create_msg("A");
    msg.recipient = Some(s("R"));
    execute_create(&mut st, msg, Balance::Native(10), &s("creator")).unwrap();
    assert_eq!(
        execute_set_recipient(&mut st, &s("creator"), s("A"), s("X")).unwrap_err(),
        ContractError::Unauthorized {}
    );
    assert_eq!(
        execute_approve(&mut st, &env(), &s("creator"), s("A")).unwrap_err(),
        ContractError::Unauthorized {}
    );
    assert_eq!(
        execute_refund(&mut st, &env(), &s("creator"), s("A")).unwrap_err(),
        ContractError::Unauthorized {}
    );
    assert_eq!(query_details(&st, s("A")).unwrap().recipient, Some(s("R")));
    assert_eq!(
        execute_set_recipient(&mut st, &s(ARBITER), s("nope"), s("X")).unwrap_err(),
        ContractError::NotFound {}
    );
}

#[test]
fn approval_beyond_pool_is_insufficient_cover() {
    let mut st = with_pool(100);
    execute_create(&mut st, create_msg("A"), Balance::Native(80), &s("creator")).unwrap();
    execute_create(&mut st, create_msg("B"), Balance::Native(80), &s("creator")).unwrap();
    execute_set_recipient(&mut st, &s(ARBITER), s("A"), s("R")).unwrap();
    execute_set_recipient(&mut st, &s(ARBITER), s("B"), s("R")).unwrap();
    execute_approve(&mut st, &env(), &s(ARBITER), s("A")).unwrap();
    assert_eq!(pool_native(&st), 20);
    assert_eq!(
        execute_approve(&mut st, &env(), &s(ARBITER), s("B")).unwrap_err(),
        ContractError::InsufficientCover {}
    );
    assert_eq!(query_list(&st).insurances, vec![s("B")]);
}

#[test]
fn second_claim_fails_and_approval_clears_it() {
    let mut st = with_pool(100);
    execute_create(&mut st, create_msg("A"), Balance::Native(10), &s("creator")).unwrap();
    execute_claim_request(&mut st, &env(), &s(ARBITER), s("A")).unwrap();
    assert_eq!(
        execute_claim_request(&mut st, &env(), &s(ARBITER), s("A")).unwrap_err(),
        ContractError::AlreadyInUse {}
    );
    assert_eq!(query_claims_request(&st).insurances, vec![s("A")]);
    execute_set_recipient(&mut st, &s(ARBITER), s("A"), s("R")).unwrap();
    execute_approve(&mut st, &env(), &s(ARBITER), s("A")).unwrap();
    assert!(query_claims_request(&st).insurances.is_empty());
}

#[test]
fn claim_guards() {
    let mut st = with_pool(100);
    let mut msg = create_msg("A");
    msg.end_time = Some(500);
    execute_create(&mut st, msg, Balance::Native(10), &s("creator")).unwrap();
    assert_eq!(
        execute_claim_request(&mut st, &env(), &s("creator"), s("A")).unwrap_err(),
        ContractError::Unauthorized {}
    );
    assert_eq!(
        execute_claim_request(&mut st, &env(), &s(ARBITER), s("A")).unwrap_err(),
        ContractError::Expired {}
    );
    assert_eq!(
        execute_claim_request(&mut st, &env(), &s(ARBITER), s("Z")).unwrap_err(),
        ContractError::NotFound {}
    );
    assert!(query_claims_request(&st).insurances.is_empty());
}

#[test]
fn refund_clears_claim_and_pays_tokens_to_source() {
    let mut st = with_pool(100);
    let funding = Balance::Cw20 { address: s("token"), amount: 40 };
    execute_create(&mut st, create_msg("A"), funding, &s("creator")).unwrap();
    execute_top_up(&mut st, s("A"), Balance::Native(3)).unwrap();
    execute_claim_request(&mut st, &env(), &s(ARBITER), s("A")).unwrap();
    let transfers = execute_refund(&mut st, &env(), &s(ARBITER), s("A")).unwrap();
    assert_eq!(transfers.len(), 2);
    match (&transfers[0], &transfers[1]) {
        (Transfer::Native { to, amount }, Transfer::Cw20 { to: to2, contract, amount: a2 }) => {
            assert_eq!((to.as_str(), *amount), ("creator", 3));
            assert_eq!((to2.as_str(), contract.as_str(), *a2), ("creator", "token", 40));
        }
        other => panic!("unexpected transfers {:?}", other),
    }
    assert!(query_claims_request(&st).insurances.is_empty());
    assert!(query_details(&st, s("A")).is_err());
}

#[test]
fn receive_routes_token_requests() {
    let mut st = instantiate(s(ARBITER));
    let cover = TokenReceipt { sender: s("funder"), amount: 9, msg: ReceiveMsg::ProvideCoverage {} };
    execute_receive(&mut st, &s("token"), cover).unwrap();
    assert_eq!(pool_native(&st), 0);
    let create = TokenReceipt { sender: s("creator"), amount: 4, msg: ReceiveMsg::Create(create_msg("A")) };
    execute_receive(&mut st, &s("token"), create).unwrap();
    let top = TokenReceipt { sender: s("creator"), amount: 1, msg: ReceiveMsg::TopUp { id: s("A") } };
    execute_receive(&mut st, &s("token"), top).unwrap();
    let d = query_details(&st, s("A")).unwrap();
    assert_eq!(d.source, "creator");
    assert_eq!(d.cw20_balance, vec![(s("token"), 5)]);
    let bad = TokenReceipt { sender: s("creator"), amount: 1, msg: ReceiveMsg::TopUp { id: s("A") } };
    assert_eq!(
        execute_receive(&mut st, &s("other"), bad).unwrap_err(),
        ContractError::NotInWhitelist {}
    );
}

#[test]
fn execute_dispatches_by_message() {
    let mut st = instantiate(s(ARBITER));
    let info = |sender: &str, funds: u128| MessageInfo { sender: s(sender), funds };
    execute(&mut st, env(), info("funder", 300), ExecuteMsg::ProvideCoverage {}).unwrap();
    execute(&mut st, env(), info("creator", 30), ExecuteMsg::Create(create_msg("A"))).unwrap();
    execute(&mut st, env(), info("creator", 5), ExecuteMsg::TopUp { id: s("A") }).unwrap();
    execute(&mut st, env(), info(ARBITER, 0), ExecuteMsg::Claim { id: s("A") }).unwrap();
    execute(&mut st, env(), info(ARBITER, 0), ExecuteMsg::SetRecipient { id: s("A"), recipient: s("R") })
        .unwrap();
    let out = execute(&mut st, env(), info(ARBITER, 0), ExecuteMsg::Approve { id: s("A") }).unwrap();
    assert_eq!(out.len(), 1);
    assert_eq!(pool_native(&st), 265);
    let err = execute(&mut st, env(), info(ARBITER, 0), ExecuteMsg::Refund { id: s("A") }).unwrap_err();
    assert_eq!(err, ContractError::NotFound {});
    match query(&st, QueryMsg::List {}).unwrap() {
        QueryResponse::List(l) => assert!(l.insurances.is_empty()),
        other => panic!("unexpected response {:?}", other),
    }
    assert_eq!(query(&st, QueryMsg::Details { id: s("A") }).unwrap_err(), ContractError::NotFound {});
}

#[test]
fn expiry_bounds_are_inclusive() {
    let mut st = with_pool(100);
    let mut msg = create_msg("A");
    msg.end_height = Some(101);
    msg.end_time = Some(2000);
    execute_create(&mut st, msg, Balance::Native(1), &s("creator")).unwrap();
    assert_eq!(
        execute_refund(&mut st, &env(), &s("anyone"), s("A")).unwrap_err(),
        ContractError::Unauthorized {}
    );
    let later = Env { height: 100, time: 2000 };
    execute_refund(&mut st, &later, &s("anyone"), s("A")).unwrap();
}

#[test]
fn balance_merge_and_subtract() {
    let mut b = GenericBalance::from_balance(Balance::Native(10));
    assert!(!b.is_empty());
    b.add_tokens(Balance::Cw20 { address: s("t"), amount: 3 });
    b.add_tokens(Balance::Cw20 { address: s("t"), amount: 4 });
    b.add_tokens(Balance::Native(5));
    assert_eq!(b.native, 15);
    assert_eq!(b.cw20, vec![(s("t"), 7)]);
    assert_eq!(b.remove_tokens(16), Err(ContractError::Underflow {}));
    assert_eq!(b.native, 15);
    assert_eq!(b.remove_tokens(15), Ok(()));
    assert_eq!(b.native, 0);
    assert!(!b.is_empty());
    assert!(GenericBalance::from_balance(Balance::Native(0)).is_empty());
    assert!(Balance::Native(0).is_empty());
    assert!(Balance::Cw20 { address: s("t"), amount: 0 }.is_empty());
}

#[test]
fn names_between_three_and_twenty_bytes_are_valid() {
    assert!(!is_valid_name("ab"));
    assert!(is_valid_name("abc"));
    assert!(is_valid_name("abcdefghijklmnopqrst"));
    assert!(!is_valid_name("abcdefghijklmnopqrstu"));
}

#[test]
fn whitelist_defaults_to_empty() {
    let mut msg = create_msg("A");
    assert!(msg.addr_whitelist().is_empty());
    msg.cw20_whitelist = Some(vec![s("x"), s("y")]);
    assert_eq!(msg.addr_whitelist(), vec![s("x"), s("y")]);
}

#[test]
fn well_formedness_is_checked() {
    let mut st = with_pool(100);
    execute_create(&mut st, create_msg("A"), Balance::Native(10), &s("creator")).unwrap();
    execute_claim_request(&mut st, &env(), &s(ARBITER), s("A")).unwrap();
    assert!(st.is_well_formed());
    let mut dup = st.clone();
    let first = dup.insurances[0].clone();
    dup.insurances.push(first);
    assert!(!dup.is_well_formed());
    let mut orphan = st.clone();
    orphan.insurances.clear();
    assert!(!orphan.is_well_formed());
}
