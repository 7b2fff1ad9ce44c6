//! What holds of every call: conservation of the attached funds, rejection
//! of malformed and underfunded requests, the order of the transfers, and the
//! gating and the transfer of the admin role.

use crate::bank::{CoinView, MessageInfoView, ResponseView, TransferView};
use crate::contract::{
    disperse_same_value_spec, disperse_spec, execute_spec, execute_state, mismatch_reason,
    payment, payouts, settle, single_denomination, uniform, update_admin_spec,
    withdraw_funds_spec,
};
use crate::error::ErrorView;
use crate::math::total;
use crate::msg::ExecuteMsgView;
use crate::state::StateView;
use vstd::prelude::*;

verus! {

/// The amount that a payment of several coins carries, all coins together.
pub open spec fn coins_amount(coins: Seq<CoinView>) -> nat
    decreases coins.len(),
{
    if coins.len() == 0 {
        0
    } else {
        coins_amount(coins.drop_last()) + coins.last().amount
    }
}

/// The amount that a list of transfers moves, all transfers together.
pub open spec fn outgoing(messages: Seq<TransferView>) -> nat
    decreases messages.len(),
{
    if messages.len() == 0 {
        0
    } else {
        outgoing(messages.drop_last()) + coins_amount(messages.last().amount)
    }
}

/// A payment of one coin carries that coin's amount.
pub proof fn lemma_payment_amount(to: Seq<char>, coin: CoinView)
    ensures
        coins_amount(payment(to, coin).amount) == coin.amount,
{
    reveal_with_fuel(coins_amount, 2);
    assert(seq![coin].len() == 1);
    assert(seq![coin].last() == coin);
}

/// Appending a payment of one coin adds that coin's amount.
pub proof fn lemma_outgoing_push(messages: Seq<TransferView>, to: Seq<char>, coin: CoinView)
    ensures
        outgoing(messages.push(payment(to, coin))) == outgoing(messages) + coin.amount,
{
    lemma_payment_amount(to, coin);
    assert(messages.push(payment(to, coin)).drop_last() =~= messages);
}

/// The transfers to the recipients move what the amounts add up to.
pub proof fn lemma_payouts_total(accounts: Seq<Seq<char>>, amounts: Seq<u128>, denom: Seq<char>)
    requires
        accounts.len() == amounts.len(),
    ensures
        outgoing(payouts(accounts, amounts, denom)) == total(amounts),
    decreases accounts.len(),
{
    if accounts.len() > 0 {
        let coin = CoinView { denom, amount: amounts.last() as nat };
        lemma_payouts_total(accounts.drop_last(), amounts.drop_last(), denom);
        assert(payouts(accounts, amounts, denom) =~= payouts(
            accounts.drop_last(),
            amounts.drop_last(),
            denom,
        ).push(payment(accounts.last(), coin)));
        lemma_outgoing_push(
            payouts(accounts.drop_last(), amounts.drop_last(), denom),
            accounts.last(),
            coin,
        );
    }
}

/// Equal amounts add up to the amount times their number.
pub proof fn lemma_uniform_total(amount: u128, count: nat)
    ensures
        total(uniform(amount, count)) == amount * count,
    decreases count,
{
    if count > 0 {
        lemma_uniform_total(amount, (count - 1) as nat);
        assert(uniform(amount, count).drop_last() =~= uniform(amount, (count - 1) as nat));
        assert(uniform(amount, count).last() == amount);
        assert(amount * (count - 1) + amount == amount * count) by (nonlinear_arith);
    } else {
        assert(amount * count == 0) by (nonlinear_arith)
            requires
                count == 0,
        ;
    }
}

/// A settled disbursement moves exactly the first attached coin's amount,
/// given that the transfers to the recipients move what was requested.
pub proof fn lemma_settle_conserves(
    info: MessageInfoView,
    paid: Seq<TransferView>,
    requested: nat,
)
    requires
        outgoing(paid) == requested,
        settle(info, paid, requested) is Ok,
    ensures
        outgoing(settle(info, paid, requested)->Ok_0.messages) == info.funds[0].amount,
{
    let attached = info.funds[0];
    let remaining = (attached.amount - requested) as nat;
    if remaining > 0 {
        lemma_outgoing_push(
            paid,
            info.sender,
            CoinView { denom: attached.denom, amount: remaining },
        );
    }
}

/// Conservation: an accepted itemized disbursement moves exactly the attached
/// amount, the payments to the recipients and the refund together.
pub proof fn lemma_disperse_conserves(
    info: MessageInfoView,
    accounts: Seq<Seq<char>>,
    amounts: Seq<u128>,
)
    ensures
        disperse_spec(info, accounts, amounts) is Ok ==> outgoing(
            disperse_spec(info, accounts, amounts)->Ok_0.messages,
        ) == info.funds[0].amount,
{
    if disperse_spec(info, accounts, amounts) is Ok {
        let paid = payouts(accounts, amounts, info.funds[0].denom);
        lemma_payouts_total(accounts, amounts, info.funds[0].denom);
        lemma_settle_conserves(info, paid, total(amounts));
    }
}

/// A uniform disbursement is the itemized disbursement that gives every
/// account the same amount.
pub proof fn lemma_uniform_is_itemized(
    info: MessageInfoView,
    accounts: Seq<Seq<char>>,
    amount: u128,
)
    ensures
        disperse_same_value_spec(info, accounts, amount) == disperse_spec(
            info,
            accounts,
            uniform(amount, accounts.len()),
        ),
{
    lemma_uniform_total(amount, accounts.len());
}

/// Conservation: an accepted uniform disbursement moves exactly the attached
/// amount, the payments to the recipients and the refund together.
pub proof fn lemma_disperse_same_value_conserves(
    info: MessageInfoView,
    accounts: Seq<Seq<char>>,
    amount: u128,
)
    ensures
        disperse_same_value_spec(info, accounts, amount) is Ok ==> outgoing(
            disperse_same_value_spec(info, accounts, amount)->Ok_0.messages,
        ) == info.funds[0].amount,
{
    lemma_uniform_is_itemized(info, accounts, amount);
    lemma_disperse_conserves(info, accounts, uniform(amount, accounts.len()));
}

/// No underfunding: an itemized disbursement that asks for more than the
/// first attached coin holds is rejected, and so pays nothing. Where the
/// request is well formed and its sum fits in 128 bits, the error is
/// `InsufficientFunds`.
pub proof fn lemma_disperse_rejects_underfunding(
    info: MessageInfoView,
    accounts: Seq<Seq<char>>,
    amounts: Seq<u128>,
)
    requires
        total(amounts) > info.funds[0].amount,
    ensures
        disperse_spec(info, accounts, amounts) is Err,
        accounts.len() == amounts.len() && single_denomination(info.funds) && total(amounts)
            <= u128::MAX ==> disperse_spec(info, accounts, amounts) == Err::<
            ResponseView,
            ErrorView,
        >(ErrorView::InsufficientFunds),
{
}

/// No underfunding: a uniform disbursement that asks for more than the first
/// attached coin holds is rejected, and so pays nothing. Where the funds are
/// of one denomination and the product fits in 128 bits, the error is
/// `InsufficientFunds`.
pub proof fn lemma_disperse_same_value_rejects_underfunding(
    info: MessageInfoView,
    accounts: Seq<Seq<char>>,
    amount: u128,
)
    requires
        amount * accounts.len() > info.funds[0].amount,
    ensures
        disperse_same_value_spec(info, accounts, amount) is Err,
        single_denomination(info.funds) && amount * accounts.len() <= u128::MAX
            ==> disperse_same_value_spec(info, accounts, amount) == Err::<
            ResponseView,
            ErrorView,
        >(ErrorView::InsufficientFunds),
{
}

/// Mismatch rejection: an itemized disbursement whose accounts and amounts
/// differ in number is rejected with `InvalidInput`, whatever else it holds.
pub proof fn lemma_disperse_rejects_mismatch(
    info: MessageInfoView,
    accounts: Seq<Seq<char>>,
    amounts: Seq<u128>,
)
    requires
        accounts.len() != amounts.len(),
    ensures
        disperse_spec(info, accounts, amounts) == Err::<ResponseView, ErrorView>(
            ErrorView::InvalidInput { reason: mismatch_reason() },
        ),
{
}

/// Order preservation: in an accepted itemized disbursement, transfer `i` pays
/// account `i` its amount in the attached denomination; a refund is present
/// exactly when something is left, and it then comes last and goes to the
/// sender.
pub proof fn lemma_disperse_keeps_order(
    info: MessageInfoView,
    accounts: Seq<Seq<char>>,
    amounts: Seq<u128>,
)
    requires
        disperse_spec(info, accounts, amounts) is Ok,
    ensures
        ({
            let messages = disperse_spec(info, accounts, amounts)->Ok_0.messages;
            let attached = info.funds[0];
            let remaining = attached.amount - total(amounts);
            &&& remaining >= 0
            &&& messages.len() == accounts.len() + (if remaining > 0 {
                1int
            } else {
                0int
            })
            &&& forall|i: int|
                0 <= i < accounts.len() ==> #[trigger] messages[i] == payment(
                    accounts[i],
                    CoinView { denom: attached.denom, amount: amounts[i] as nat },
                )
            &&& remaining > 0 ==> messages.last() == payment(
                info.sender,
                CoinView { denom: attached.denom, amount: remaining as nat },
            )
        }),
{
}

/// Order preservation: in an accepted uniform disbursement, transfer `i` pays
/// account `i` the shared amount in the attached denomination; a refund is
/// present exactly when something is left, and it then comes last and goes to
/// the sender.
pub proof fn lemma_disperse_same_value_keeps_order(
    info: MessageInfoView,
    accounts: Seq<Seq<char>>,
    amount: u128,
)
    requires
        disperse_same_value_spec(info, accounts, amount) is Ok,
    ensures
        ({
            let messages = disperse_same_value_spec(info, accounts, amount)->Ok_0.messages;
            let attached = info.funds[0];
            let remaining = attached.amount - amount * accounts.len();
            &&& remaining >= 0
            &&& messages.len() == accounts.len() + (if remaining > 0 {
                1int
            } else {
                0int
            })
            &&& forall|i: int|
                0 <= i < accounts.len() ==> #[trigger] messages[i] == payment(
                    accounts[i],
                    CoinView { denom: attached.denom, amount: amount as nat },
                )
            &&& remaining > 0 ==> messages.last() == payment(
                info.sender,
                CoinView { denom: attached.denom, amount: remaining as nat },
            )
        }),
{
}

/// Order preservation: an accepted withdrawal pays account `i` the coin `i`,
/// and nothing else.
pub proof fn lemma_withdraw_keeps_order(
    state: StateView,
    info: MessageInfoView,
    accounts: Seq<Seq<char>>,
    amounts: Seq<CoinView>,
)
    requires
        withdraw_funds_spec(state, info, accounts, amounts) is Ok,
    ensures
        ({
            let messages = withdraw_funds_spec(state, info, accounts, amounts)->Ok_0.messages;
            &&& messages.len() == accounts.len()
            &&& forall|i: int|
                0 <= i < accounts.len() ==> #[trigger] messages[i] == payment(
                    accounts[i],
                    amounts[i],
                )
        }),
{
}

/// Admin gating: a caller other than the admin is rejected with
/// `Unauthorized` by both privileged operations, and no request of such a
/// caller changes the admin record.
pub proof fn lemma_admin_gating(state: StateView, info: MessageInfoView, msg: ExecuteMsgView)
    requires
        info.sender != state.admin,
    ensures
        execute_state(state, info, msg) == state,
        msg is WithdrawFunds || msg is UpdateAdmin ==> execute_spec(state, info, msg) == Err::<
            ResponseView,
            ErrorView,
        >(ErrorView::Unauthorized),
{
}

/// Only a request of the admin to hand over the role changes the admin
/// record, and a rejected request never does.
pub proof fn lemma_state_changes_only_on_transfer(
    state: StateView,
    info: MessageInfoView,
    msg: ExecuteMsgView,
)
    ensures
        !(msg is UpdateAdmin) ==> execute_state(state, info, msg) == state,
        execute_spec(state, info, msg) is Err ==> execute_state(state, info, msg) == state,
{
}

/// Privilege transfer: once the admin has handed the role to `new_admin`, the
/// new admin passes the guard of both privileged operations (a withdrawal is
/// then accepted whenever its accounts and amounts agree in number), and the
/// former admin, where it is another account, is rejected by both with
/// `Unauthorized`.
pub proof fn lemma_privilege_transfer(
    state: StateView,
    info: MessageInfoView,
    new_admin: Seq<char>,
    next: MessageInfoView,
    accounts: Seq<Seq<char>>,
    amounts: Seq<CoinView>,
)
    requires
        update_admin_spec(state, info) is Ok,
    ensures
        ({
            let after = state.transfer(info.sender, new_admin);
            &&& after.admin == new_admin
            &&& next.sender == new_admin ==> {
                &&& update_admin_spec(after, next) is Ok
                &&& withdraw_funds_spec(after, next, accounts, amounts) is Ok <==> accounts.len()
                    == amounts.len()
                &&& withdraw_funds_spec(after, next, accounts, amounts) != Err::<
                    ResponseView,
                    ErrorView,
                >(ErrorView::Unauthorized)
            }
            &&& next.sender == state.admin && state.admin != new_admin ==> {
                &&& update_admin_spec(after, next) == Err::<ResponseView, ErrorView>(
                    ErrorView::Unauthorized,
                )
                &&& withdraw_funds_spec(after, next, accounts, amounts) == Err::<
                    ResponseView,
                    ErrorView,
                >(ErrorView::Unauthorized)
            }
        }),
{
}

/// Nobody but the admin passes the guard.
pub proof fn lemma_only_admin_passes(state: StateView, sender: Seq<char>)
    ensures
        state.authorize(sender) is Ok <==> sender == state.admin,
        sender != state.admin ==> state.authorize(sender) == Err::<(), ErrorView>(
            ErrorView::Unauthorized,
        ),
        sender != state.admin ==> forall|new_admin: Seq<char>|
            #[trigger] state.transfer(sender, new_admin) == state,
{
}

/// After the admin hands the role to `new_admin`, `new_admin` passes the guard,
/// and the former admin, where it is another account, no longer does.
pub proof fn lemma_transfer_moves_privilege(state: StateView, new_admin: Seq<char>)
    ensures
        state.authorize(state.admin) is Ok,
        state.transfer(state.admin, new_admin).admin == new_admin,
        state.transfer(state.admin, new_admin).authorize(new_admin) is Ok,
        state.admin != new_admin ==> state.transfer(state.admin, new_admin).authorize(
            state.admin,
        ) == Err::<(), ErrorView>(ErrorView::Unauthorized),
{
}

} // verus!
