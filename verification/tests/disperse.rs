use dispersei::bank::{Addr, Coin, MessageInfo, Response, Transfer};
use dispersei::contract::{disperse, disperse_same_value, execute};
use dispersei::error::ContractError;
use dispersei::msg::ExecuteMsg;
use dispersei::state::State;

fn addr(text: &str) -> Addr {
    Addr::unchecked(text.to_string())
}

fn coin(amount: u128, denom: &str) -> Coin {
    Coin::new(amount, denom.to_string())
}

fn send(to: &str, amount: u128, denom: &str) -> Transfer {
    Transfer { to_address: addr(to), amount: vec![coin(amount, denom)] }
}

fn info(sender: &str, funds: Vec<Coin>) -> MessageInfo {
    MessageInfo { sender: addr(sender), funds }
}

fn moved(response: &Response) -> u128 {
    let mut sum: u128 = 0;
    for transfer in &response.messages {
        for c in &transfer.amount {
            sum += c.amount;
        }
    }
    sum
}

#[test]
fn itemized_pays_in_order_and_refunds_last() {
    let r = disperse(
        info("carol", vec![coin(100, "atom")]),
        vec![addr("alice"), addr("bob")],
        vec![40, 30],
    )
    .unwrap();
    assert_eq!(
        r.messages,
        vec![send("alice", 40, "atom"), send("bob", 30, "atom"), send("carol", 30, "atom")]
    );
    assert_eq!(r.action, Some("disperse".to_string()));
}

#[test]
fn uniform_exact_funds_has_no_refund() {
    let r = disperse_same_value(
        info("carol", vec![coin(90, "atom")]),
        vec![addr("alice"), addr("bob"), addr("dave")],
        30,
    )
    .unwrap();
    assert_eq!(
        r.messages,
        vec![send("alice", 30, "atom"), send("bob", 30, "atom"), send("dave", 30, "atom")]
    );
    assert_eq!(r.action, Some("disperse".to_string()));
}

#[test]
fn itemized_underfunded_is_rejected() {
    let r = disperse(
        info("carol", vec![coin(50, "atom")]),
        vec![addr("alice"), addr("bob")],
        vec![40, 20],
    );
    assert_eq!(r, Err(ContractError::InsufficientFunds {}));
}

#[test]
fn uniform_underfunded_is_rejected() {
    let r = disperse_same_value(
        info("carol", vec![coin(50, "atom")]),
        vec![addr("alice"), addr("bob")],
        26,
    );
    assert_eq!(r, Err(ContractError::InsufficientFunds {}));
}

#[test]
fn uniform_with_refund() {
    let r = disperse_same_value(
        info("carol", vec![coin(100, "uluna")]),
        vec![addr("alice"), addr("bob")],
        45,
    )
    .unwrap();
    assert_eq!(
        r.messages,
        vec![send("alice", 45, "uluna"), send("bob", 45, "uluna"), send("carol", 10, "uluna")]
    );
}

#[test]
fn itemized_exact_funds_has_no_refund() {
    let r = disperse(
        info("carol", vec![coin(70, "atom")]),
        vec![addr("alice"), addr("bob")],
        vec![40, 30],
    )
    .unwrap();
    assert_eq!(r.messages, vec![send("alice", 40, "atom"), send("bob", 30, "atom")]);
}

#[test]
fn itemized_conserves_the_attached_amount() {
    let attached: u128 = 1_000_000;
    let r = disperse(
        info("carol", vec![coin(attached, "atom")]),
        vec![addr("a"), addr("b"), addr("c"), addr("d")],
        vec![1, 999, 0, 250_000],
    )
    .unwrap();
    assert_eq!(moved(&r), attached);
    assert_eq!(r.messages.len(), 5);
    assert_eq!(r.messages[4], send("carol", 749_000, "atom"));
}

#[test]
fn uniform_conserves_the_attached_amount() {
    let attached: u128 = 1_000;
    let r = disperse_same_value(
        info("carol", vec![coin(attached, "atom")]),
        vec![addr("a"), addr("b"), addr("c")],
        333,
    )
    .unwrap();
    assert_eq!(moved(&r), attached);
    assert_eq!(r.messages[3], send("carol", 1, "atom"));
}

#[test]
fn mismatched_lengths_are_rejected() {
    let r = disperse(
        info("carol", vec![coin(100, "atom")]),
        vec![addr("alice"), addr("bob")],
        vec![40],
    );
    assert_eq!(
        r,
        Err(ContractError::InvalidInput {
            reason: "Number of accounts and amounts do not match".to_string()
        })
    );
}

#[test]
fn mismatch_is_reported_before_anything_else() {
    let r = disperse(info("carol", vec![]), vec![addr("alice")], vec![u128::MAX, 1]);
    assert_eq!(
        r,
        Err(ContractError::InvalidInput {
            reason: "Number of accounts and amounts do not match".to_string()
        })
    );
}

#[test]
fn empty_funds_are_rejected() {
    let expected = Err(ContractError::InvalidInput {
        reason: "Attached funds must be of a single denomination".to_string(),
    });
    assert_eq!(disperse(info("carol", vec![]), vec![addr("alice")], vec![1]), expected);
    assert_eq!(disperse_same_value(info("carol", vec![]), vec![addr("alice")], 1), expected);
}

#[test]
fn mixed_denominations_are_rejected() {
    let expected = Err(ContractError::InvalidInput {
        reason: "Attached funds must be of a single denomination".to_string(),
    });
    let funds = vec![coin(100, "atom"), coin(100, "uluna")];
    assert_eq!(disperse(info("carol", funds.clone()), vec![addr("alice")], vec![1]), expected);
    assert_eq!(disperse_same_value(info("carol", funds), vec![addr("alice")], 1), expected);
}

#[test]
fn itemized_overflow_is_not_insufficient_funds() {
    let r = disperse(
        info("carol", vec![coin(u128::MAX, "atom")]),
        vec![addr("alice"), addr("bob")],
        vec![u128::MAX, 1],
    );
    assert_eq!(r, Err(ContractError::ArithmeticOverflow {}));
}

#[test]
fn uniform_overflow_is_not_insufficient_funds() {
    let r = disperse_same_value(
        info("carol", vec![coin(u128::MAX, "atom")]),
        vec![addr("alice"), addr("bob")],
        u128::MAX / 2 + 1,
    );
    assert_eq!(r, Err(ContractError::ArithmeticOverflow {}));
}

#[test]
fn itemized_largest_sum_is_accepted() {
    let r = disperse(
        info("carol", vec![coin(u128::MAX, "atom")]),
        vec![addr("alice"), addr("bob")],
        vec![u128::MAX - 1, 1],
    )
    .unwrap();
    assert_eq!(r.messages, vec![send("alice", u128::MAX - 1, "atom"), send("bob", 1, "atom")]);
}

#[test]
fn no_recipients_refunds_everything() {
    let r = disperse(info("carol", vec![coin(7, "atom")]), vec![], vec![]).unwrap();
    assert_eq!(r.messages, vec![send("carol", 7, "atom")]);
    let r = disperse_same_value(info("carol", vec![coin(7, "atom")]), vec![], 3).unwrap();
    assert_eq!(r.messages, vec![send("carol", 7, "atom")]);
}

#[test]
fn no_recipients_and_no_money_pays_nothing() {
    let r = disperse(info("carol", vec![coin(0, "atom")]), vec![], vec![]).unwrap();
    assert!(r.messages.is_empty());
    assert_eq!(r.action, Some("disperse".to_string()));
}

#[test]
fn execute_dispatches_disbursements() {
    let mut state = State { admin: addr("root") };
    let r = execute(
        &mut state,
        info("carol", vec![coin(100, "atom")]),
        ExecuteMsg::Disperse { accounts: vec![addr("alice"), addr("bob")], amounts: vec![40, 30] },
    )
    .unwrap();
    assert_eq!(
        r.messages,
        vec![send("alice", 40, "atom"), send("bob", 30, "atom"), send("carol", 30, "atom")]
    );
    let r = execute(
        &mut state,
        info("carol", vec![coin(60, "atom")]),
        ExecuteMsg::DisperseSameValue { accounts: vec![addr("alice"), addr("bob")], amount: 30 },
    )
    .unwrap();
    assert_eq!(r.messages, vec![send("alice", 30, "atom"), send("bob", 30, "atom")]);
    assert_eq!(state, State { admin: addr("root") });
}
