use dispersei::bank::{Addr, Coin, MessageInfo, Response, Transfer};
use dispersei::contract::{execute, instantiate, update_admin, withdraw_funds};
use dispersei::error::ContractError;
use dispersei::msg::{ExecuteMsg, InstantiateMsg};
use dispersei::state::State;

fn account(text: &str) -> Addr {
    Addr::unchecked(text.to_string())
}

fn caller(sender: &str) -> MessageInfo {
    MessageInfo { sender: account(sender), funds: vec![] }
}

fn money(amount: u128, denom: &str) -> Coin {
    Coin::new(amount, denom.to_string())
}

#[test]
fn instantiate_makes_the_caller_admin() {
    let (state, response) = instantiate(caller("a"), InstantiateMsg {}).unwrap();
    assert_eq!(state, State { admin: account("a") });
    assert_eq!(response, Response { messages: vec![], action: None });
}

#[test]
fn update_admin_by_stranger_is_rejected() {
    let mut state = State { admin: account("a") };
    let r = update_admin(caller("b"), &mut state, account("c"));
    assert_eq!(r, Err(ContractError::Unauthorized {}));
    assert_eq!(state, State { admin: account("a") });
}

#[test]
fn update_admin_by_admin_replaces_the_admin() {
    let mut state = State { admin: account("a") };
    let r = update_admin(caller("a"), &mut state, account("x"));
    assert_eq!(r, Ok(Response { messages: vec![], action: None }));
    assert_eq!(state, State { admin: account("x") });
}

#[test]
fn privilege_moves_with_the_role() {
    let mut state = State { admin: account("a") };
    update_admin(caller("a"), &mut state, account("x")).unwrap();
    assert_eq!(state.only_admin(&account("x")), Ok(()));
    assert_eq!(state.only_admin(&account("a")), Err(ContractError::Unauthorized {}));
    assert_eq!(
        withdraw_funds(&state, caller("a"), vec![account("a")], vec![money(1, "atom")]),
        Err(ContractError::Unauthorized {})
    );
    assert_eq!(
        update_admin(caller("a"), &mut state, account("a")),
        Err(ContractError::Unauthorized {})
    );
    assert!(withdraw_funds(&state, caller("x"), vec![account("x")], vec![money(1, "atom")])
        .is_ok());
    assert!(update_admin(caller("x"), &mut state, account("y")).is_ok());
    assert_eq!(state, State { admin: account("y") });
}

#[test]
fn handing_the_role_to_oneself_keeps_it() {
    let mut state = State { admin: account("a") };
    update_admin(caller("a"), &mut state, account("a")).unwrap();
    assert_eq!(state.only_admin(&account("a")), Ok(()));
}

#[test]
fn set_admin_checks_the_caller() {
    let mut state = State { admin: account("a") };
    assert_eq!(
        state.set_admin(&caller("b"), &account("b")),
        Err(ContractError::Unauthorized {})
    );
    assert_eq!(state, State { admin: account("a") });
    assert_eq!(state.set_admin(&caller("a"), &account("b")), Ok(()));
    assert_eq!(state, State { admin: account("b") });
}

#[test]
fn withdraw_by_stranger_is_rejected() {
    let state = State { admin: account("a") };
    let r = withdraw_funds(&state, caller("b"), vec![account("b")], vec![money(5, "atom")]);
    assert_eq!(r, Err(ContractError::Unauthorized {}));
}

#[test]
fn withdraw_by_stranger_with_mismatch_is_still_unauthorized() {
    let state = State { admin: account("a") };
    let r = withdraw_funds(&state, caller("b"), vec![account("b")], vec![]);
    assert_eq!(r, Err(ContractError::Unauthorized {}));
}

#[test]
fn withdraw_pays_each_account_its_coin() {
    let state = State { admin: account("a") };
    let r = withdraw_funds(
        &state,
        caller("a"),
        vec![account("alice"), account("bob")],
        vec![money(5, "atom"), money(9, "uluna")],
    )
    .unwrap();
    assert_eq!(
        r.messages,
        vec![
            Transfer { to_address: account("alice"), amount: vec![money(5, "atom")] },
            Transfer { to_address: account("bob"), amount: vec![money(9, "uluna")] },
        ]
    );
    assert_eq!(r.action, Some("withdraw_funds".to_string()));
}

#[test]
fn withdraw_with_mismatched_lengths_is_rejected() {
    let state = State { admin: account("a") };
    let r = withdraw_funds(
        &state,
        caller("a"),
        vec![account("alice"), account("bob")],
        vec![money(5, "atom")],
    );
    assert_eq!(
        r,
        Err(ContractError::InvalidInput {
            reason: "Number of accounts and amounts do not match".to_string()
        })
    );
}

#[test]
fn execute_gates_admin_requests() {
    let mut state = State { admin: account("a") };
    let r = execute(&mut state, caller("b"), ExecuteMsg::UpdateAdmin { new_admin: account("c") });
    assert_eq!(r, Err(ContractError::Unauthorized {}));
    assert_eq!(state, State { admin: account("a") });
    let r = execute(
        &mut state,
        caller("b"),
        ExecuteMsg::WithdrawFunds { accounts: vec![account("b")], amounts: vec![money(1, "atom")] },
    );
    assert_eq!(r, Err(ContractError::Unauthorized {}));
    assert_eq!(state, State { admin: account("a") });
    let r = execute(&mut state, caller("a"), ExecuteMsg::UpdateAdmin { new_admin: account("c") });
    assert_eq!(r, Ok(Response { messages: vec![], action: None }));
    assert_eq!(state, State { admin: account("c") });
}

#[test]
fn error_messages() {
    assert_eq!(ContractError::Unauthorized {}.message(), "Unauthorized");
    assert_eq!(ContractError::InsufficientFunds {}.message(), "Insufficient funds");
    assert_eq!(ContractError::ArithmeticOverflow {}.message(), "Arithmetic overflow");
    assert_eq!(ContractError::InvalidInput { reason: "why".to_string() }.message(), "why");
}

#[test]
fn addr_round_trip() {
    let a = account("alice");
    assert_eq!(a.as_str(), "alice");
    assert!(a.same(&a.duplicate()));
    assert!(!a.same(&account("bob")));
    assert_eq!(a.into_string(), "alice".to_string());
}
