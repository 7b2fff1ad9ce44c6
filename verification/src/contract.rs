//! The contract's operations: creation, disbursement, withdrawal and the
//! transfer of the admin role.

use crate::bank::{
    addrs_view, coins_view, outcome_view, transfers_view, Addr, Coin, CoinView, MessageInfo,
    MessageInfoView, Response, ResponseView, Transfer, TransferView,
};
use crate::error::{ContractError, ErrorView};
use crate::laws::{
    lemma_disperse_conserves, lemma_disperse_same_value_conserves, outgoing,
};
use crate::math::{checked_total, checked_uniform_total, total, uint128_checked_sub};
use crate::msg::{ExecuteMsg, ExecuteMsgView, InstantiateMsg};
use crate::state::{State, StateView};
use vstd::prelude::*;

verus! {

/// The reason given when accounts and amounts differ in number.
pub open spec fn mismatch_reason() -> Seq<char> {
    "Number of accounts and amounts do not match"@
}

/// The reason given when the attached funds are empty or mix denominations.
pub open spec fn funds_reason() -> Seq<char> {
    "Attached funds must be of a single denomination"@
}

/// The tag of a disbursement.
pub open spec fn disperse_tag() -> Seq<char> {
    "disperse"@
}

/// The tag of a withdrawal.
pub open spec fn withdraw_tag() -> Seq<char> {
    "withdraw_funds"@
}

/// Whether `funds` holds at least one coin and only coins of one denomination.
pub open spec fn single_denomination(funds: Seq<CoinView>) -> bool {
    &&& funds.len() > 0
    &&& forall|i: int| 0 <= i < funds.len() ==> (#[trigger] funds[i]).denom == funds[0].denom
}

/// The transfer of one coin to `to`.
pub open spec fn payment(to: Seq<char>, coin: CoinView) -> TransferView {
    TransferView { to_address: to, amount: seq![coin] }
}

/// One transfer per account, in order: account `i` gets `amounts[i]` of `denom`.
pub open spec fn payouts(accounts: Seq<Seq<char>>, amounts: Seq<u128>, denom: Seq<char>) -> Seq<
    TransferView,
>
    recommends
        accounts.len() == amounts.len(),
{
    Seq::new(
        accounts.len(),
        |i: int| payment(accounts[i], CoinView { denom, amount: amounts[i] as nat }),
    )
}

/// `count` times the same amount.
pub open spec fn uniform(amount: u128, count: nat) -> Seq<u128> {
    Seq::new(count, |i: int| amount)
}

/// What a disbursement pays, given the transfers to the recipients and what
/// they add up to: rejected when the first attached coin does not cover the
/// request; otherwise the transfers, followed by the refund of what is left
/// to the sender when anything is left.
pub open spec fn settle(info: MessageInfoView, paid: Seq<TransferView>, requested: nat) -> Result<
    ResponseView,
    ErrorView,
>
    recommends
        info.funds.len() > 0,
{
    let attached = info.funds[0];
    if requested > attached.amount {
        Err(ErrorView::InsufficientFunds)
    } else {
        let remaining = (attached.amount - requested) as nat;
        let refund = payment(info.sender, CoinView { denom: attached.denom, amount: remaining });
        Ok(
            ResponseView {
                messages: if remaining > 0 {
                    paid.push(refund)
                } else {
                    paid
                },
                action: Some(disperse_tag()),
            },
        )
    }
}

/// The outcome of an itemized disbursement.
pub open spec fn disperse_spec(
    info: MessageInfoView,
    accounts: Seq<Seq<char>>,
    amounts: Seq<u128>,
) -> Result<ResponseView, ErrorView> {
    if accounts.len() != amounts.len() {
        Err(ErrorView::InvalidInput { reason: mismatch_reason() })
    } else if !single_denomination(info.funds) {
        Err(ErrorView::InvalidInput { reason: funds_reason() })
    } else if total(amounts) > u128::MAX {
        Err(ErrorView::ArithmeticOverflow)
    } else {
        settle(info, payouts(accounts, amounts, info.funds[0].denom), total(amounts))
    }
}

/// The outcome of a uniform disbursement.
pub open spec fn disperse_same_value_spec(
    info: MessageInfoView,
    accounts: Seq<Seq<char>>,
    amount: u128,
) -> Result<ResponseView, ErrorView> {
    let requested = (amount * accounts.len()) as nat;
    if !single_denomination(info.funds) {
        Err(ErrorView::InvalidInput { reason: funds_reason() })
    } else if requested > u128::MAX {
        Err(ErrorView::ArithmeticOverflow)
    } else {
        settle(
            info,
            payouts(accounts, uniform(amount, accounts.len()), info.funds[0].denom),
            requested,
        )
    }
}

/// One transfer per account, in order: account `i` gets the coin `amounts[i]`.
pub open spec fn withdrawals(accounts: Seq<Seq<char>>, amounts: Seq<CoinView>) -> Seq<
    TransferView,
>
    recommends
        accounts.len() == amounts.len(),
{
    Seq::new(accounts.len(), |i: int| payment(accounts[i], amounts[i]))
}

/// The outcome of a withdrawal.
pub open spec fn withdraw_funds_spec(
    state: StateView,
    info: MessageInfoView,
    accounts: Seq<Seq<char>>,
    amounts: Seq<CoinView>,
) -> Result<ResponseView, ErrorView> {
    if info.sender != state.admin {
        Err(ErrorView::Unauthorized)
    } else if accounts.len() != amounts.len() {
        Err(ErrorView::InvalidInput { reason: mismatch_reason() })
    } else {
        Ok(ResponseView { messages: withdrawals(accounts, amounts), action: Some(withdraw_tag()) })
    }
}

/// The outcome of a request to hand over the admin role.
pub open spec fn update_admin_spec(state: StateView, info: MessageInfoView) -> Result<
    ResponseView,
    ErrorView,
> {
    if info.sender != state.admin {
        Err(ErrorView::Unauthorized)
    } else {
        Ok(ResponseView::empty())
    }
}

/// The outcome of a request.
pub open spec fn execute_spec(state: StateView, info: MessageInfoView, msg: ExecuteMsgView) -> Result<
    ResponseView,
    ErrorView,
> {
    match msg {
        ExecuteMsgView::Disperse { accounts, amounts } => disperse_spec(info, accounts, amounts),
        ExecuteMsgView::DisperseSameValue { accounts, amount } => disperse_same_value_spec(
            info,
            accounts,
            amount,
        ),
        ExecuteMsgView::WithdrawFunds { accounts, amounts } => withdraw_funds_spec(
            state,
            info,
            accounts,
            amounts,
        ),
        ExecuteMsgView::UpdateAdmin { new_admin } => update_admin_spec(state, info),
    }
}

/// The admin record after a request.
pub open spec fn execute_state(
    state: StateView,
    info: MessageInfoView,
    msg: ExecuteMsgView,
) -> StateView {
    match msg {
        ExecuteMsgView::UpdateAdmin { new_admin } => state.transfer(info.sender, new_admin),
        _ => state,
    }
}

fn invalid_input(reason: &str) -> (e: ContractError)
    ensures
        e@ == (ErrorView::InvalidInput { reason: reason@ }),
{
    ContractError::InvalidInput { reason: reason.to_string() }
}

fn pay(to: &Addr, coin: Coin) -> (t: Transfer)
    ensures
        t@ == payment(to@, coin@),
{
    let mut amount: Vec<Coin> = Vec::new();
    amount.push(coin);
    assert(coins_view(amount@) =~= seq![coin@]);
    Transfer { to_address: to.duplicate(), amount }
}

fn has_single_denomination(funds: &Vec<Coin>) -> (r: bool)
    ensures
        r == single_denomination(coins_view(funds@)),
{
    if funds.len() == 0 {
        return false;
    }
    let mut i: usize = 1;
    while i < funds.len()
        invariant
            1 <= i <= funds.len(),
            forall|j: int| 0 <= j < i ==> (#[trigger] funds[j]).denom@ == funds[0].denom@,
        decreases funds.len() - i,
    {
        if !(funds[i].denom == funds[0].denom) {
            assert(coins_view(funds@)[i as int].denom != coins_view(funds@)[0].denom);
            return false;
        }
        i += 1;
    }
    true
}

fn build_payouts(accounts: &Vec<Addr>, amounts: &Vec<u128>, denom: &String) -> (out: Vec<Transfer>)
    requires
        accounts.len() == amounts.len(),
    ensures
        transfers_view(out@) == payouts(addrs_view(accounts@), amounts@, denom@),
{
    let mut out: Vec<Transfer> = Vec::new();
    let mut i: usize = 0;
    while i < accounts.len()
        invariant
            i <= accounts.len(),
            accounts.len() == amounts.len(),
            out.len() == i,
            forall|j: int|
                0 <= j < i ==> (#[trigger] out[j])@ == payment(
                    accounts[j]@,
                    CoinView { denom: denom@, amount: amounts[j] as nat },
                ),
        decreases accounts.len() - i,
    {
        out.push(pay(&accounts[i], Coin::new(amounts[i], denom.clone())));
        i += 1;
    }
    assert(transfers_view(out@) =~= payouts(addrs_view(accounts@), amounts@, denom@));
    out
}

fn build_uniform_payouts(accounts: &Vec<Addr>, amount: u128, denom: &String) -> (out: Vec<
    Transfer,
>)
    ensures
        transfers_view(out@) == payouts(
            addrs_view(accounts@),
            uniform(amount, accounts.len() as nat),
            denom@,
        ),
{
    let mut out: Vec<Transfer> = Vec::new();
    let mut i: usize = 0;
    while i < accounts.len()
        invariant
            i <= accounts.len(),
            out.len() == i,
            forall|j: int|
                0 <= j < i ==> (#[trigger] out[j])@ == payment(
                    accounts[j]@,
                    CoinView { denom: denom@, amount: amount as nat },
                ),
        decreases accounts.len() - i,
    {
        out.push(pay(&accounts[i], Coin::new(amount, denom.clone())));
        i += 1;
    }
    assert(transfers_view(out@) =~= payouts(
        addrs_view(accounts@),
        uniform(amount, accounts.len() as nat),
        denom@,
    ));
    out
}

fn settle_payouts(info: &MessageInfo, paid: Vec<Transfer>, requested: u128) -> (r: Result<
    Response,
    ContractError,
>)
    requires
        info.funds.len() > 0,
    ensures
        outcome_view(r) == settle(info@, transfers_view(paid@), requested as nat),
{
    let attached = &info.funds[0];
    assert(coins_view(info.funds@)[0] == attached@);
    match uint128_checked_sub(attached.amount, requested) {
        None => Err(ContractError::InsufficientFunds {  }),
        Some(remaining) => {
            let mut messages = paid;
            if remaining != 0 {
                let refund = pay(&info.sender, Coin::new(remaining, attached.denom.clone()));
                messages.push(refund);
                assert(transfers_view(messages@) =~= transfers_view(paid@).push(refund@));
            }
            Ok(Response { messages, action: Some("disperse".to_string()) })
        },
    }
}

/// Creates the contract's admin record: the caller becomes the admin. The
/// response is empty.
pub fn instantiate(info: MessageInfo, msg: InstantiateMsg) -> (r: Result<
    (State, Response),
    ContractError,
>)
    ensures
        r is Ok,
        r->Ok_0.0@.admin == info@.sender,
        r->Ok_0.1@ == ResponseView::empty(),
{
    Ok((State { admin: info.sender }, Response::new()))
}

/// Carries out one request against the admin record.
pub fn execute(state: &mut State, info: MessageInfo, msg: ExecuteMsg) -> (r: Result<
    Response,
    ContractError,
>)
    ensures
        outcome_view(r) == execute_spec(old(state)@, info@, msg@),
        final(state)@ == execute_state(old(state)@, info@, msg@),
        r is Err ==> *final(state) == *old(state),
{
    match msg {
        ExecuteMsg::Disperse { accounts, amounts } => disperse(info, accounts, amounts),
        ExecuteMsg::DisperseSameValue { accounts, amount } => disperse_same_value(
            info,
            accounts,
            amount,
        ),
        ExecuteMsg::WithdrawFunds { accounts, amounts } => withdraw_funds(
            state,
            info,
            accounts,
            amounts,
        ),
        ExecuteMsg::UpdateAdmin { new_admin } => update_admin(info, state, new_admin),
    }
}

/// Pays account `i` the amount `amounts[i]` out of the first attached coin and
/// refunds what is left to the sender, last. Rejected with `InvalidInput` when
/// accounts and amounts differ in number, or when the attached funds are empty
/// or mix denominations; with `ArithmeticOverflow` when the amounts add up to
/// more than 128 bits hold; with `InsufficientFunds` when they add up to more
/// than was attached.
pub fn disperse(info: MessageInfo, accounts: Vec<Addr>, amounts: Vec<u128>) -> (r: Result<
    Response,
    ContractError,
>)
    ensures
        outcome_view(r) == disperse_spec(info@, addrs_view(accounts@), amounts@),
        r is Ok ==> outgoing(r->Ok_0@.messages) == info@.funds[0].amount,
{
    if accounts.len() != amounts.len() {
        return Err(invalid_input("Number of accounts and amounts do not match"));
    }
    if !has_single_denomination(&info.funds) {
        return Err(invalid_input("Attached funds must be of a single denomination"));
    }
    proof {
        lemma_disperse_conserves(info@, addrs_view(accounts@), amounts@);
    }
    match checked_total(&amounts) {
        None => Err(ContractError::ArithmeticOverflow {  }),
        Some(requested) => {
            let paid = build_payouts(&accounts, &amounts, &info.funds[0].denom);
            settle_payouts(&info, paid, requested)
        },
    }
}

/// Pays every account `amount` out of the first attached coin and refunds
/// what is left to the sender, last. Rejected with `InvalidInput` when the
/// attached funds are empty or mix denominations; with `ArithmeticOverflow`
/// when `amount` times the number of accounts is more than 128 bits hold;
/// with `InsufficientFunds` when it is more than was attached.
pub fn disperse_same_value(info: MessageInfo, accounts: Vec<Addr>, amount: u128) -> (r: Result<
    Response,
    ContractError,
>)
    ensures
        outcome_view(r) == disperse_same_value_spec(info@, addrs_view(accounts@), amount),
        r is Ok ==> outgoing(r->Ok_0@.messages) == info@.funds[0].amount,
{
    if !has_single_denomination(&info.funds) {
        return Err(invalid_input("Attached funds must be of a single denomination"));
    }
    proof {
        lemma_disperse_same_value_conserves(info@, addrs_view(accounts@), amount);
    }
    match checked_uniform_total(amount, accounts.len()) {
        None => Err(ContractError::ArithmeticOverflow {  }),
        Some(requested) => {
            let paid = build_uniform_payouts(&accounts, amount, &info.funds[0].denom);
            settle_payouts(&info, paid, requested)
        },
    }
}

/// Admin only: pays account `i` the coin `amounts[i]` out of the funds in
/// custody. Rejected with `Unauthorized` when the caller is not the admin,
/// and with `InvalidInput` when accounts and amounts differ in number.
pub fn withdraw_funds(
    state: &State,
    info: MessageInfo,
    accounts: Vec<Addr>,
    amounts: Vec<Coin>,
) -> (r: Result<Response, ContractError>)
    ensures
        outcome_view(r) == withdraw_funds_spec(
            state@,
            info@,
            addrs_view(accounts@),
            coins_view(amounts@),
        ),
{
    match state.only_admin(&info.sender) {
        Err(e) => {
            return Err(e);
        },
        Ok(()) => {},
    }
    if accounts.len() != amounts.len() {
        return Err(invalid_input("Number of accounts and amounts do not match"));
    }
    let mut messages: Vec<Transfer> = Vec::new();
    let mut i: usize = 0;
    while i < accounts.len()
        invariant
            i <= accounts.len(),
            accounts.len() == amounts.len(),
            messages.len() == i,
            forall|j: int|
                0 <= j < i ==> (#[trigger] messages[j])@ == payment(accounts[j]@, amounts[j]@),
        decreases accounts.len() - i,
    {
        let coin = Coin::new(amounts[i].amount, amounts[i].denom.clone());
        messages.push(pay(&accounts[i], coin));
        i += 1;
    }
    assert(transfers_view(messages@) =~= withdrawals(
        addrs_view(accounts@),
        coins_view(amounts@),
    ));
    Ok(Response { messages, action: Some("withdraw_funds".to_string()) })
}

/// Admin only: makes `new_admin` the admin. Rejected with `Unauthorized` when
/// the caller is not the admin; the record then stays as it was.
pub fn update_admin(info: MessageInfo, state: &mut State, new_admin: Addr) -> (r: Result<
    Response,
    ContractError,
>)
    ensures
        outcome_view(r) == update_admin_spec(old(state)@, info@),
        final(state)@ == old(state)@.transfer(info@.sender, new_admin@),
        r is Err ==> *final(state) == *old(state),
{
    match state.set_admin(&info, &new_admin) {
        Ok(()) => Ok(Response::new()),
        Err(e) => Err(e),
    }
}

} // verus!
