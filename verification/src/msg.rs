//! The requests that the contract accepts.

use crate::bank::{addrs_view, coins_view, Addr, Coin, CoinView};
use vstd::prelude::*;

verus! {

/// The request that creates the contract. It carries nothing: the caller
/// becomes the admin.
#[derive(Debug, Clone, PartialEq, Eq)]
pub struct InstantiateMsg {}

/// A request to the running contract.
#[derive(Debug, Clone, PartialEq, Eq)]
pub enum ExecuteMsg {
    /// Pay each account its own amount out of the attached funds.
    Disperse { accounts: Vec<Addr>, amounts: Vec<u128> },
    /// Pay each account the same amount out of the attached funds.
    DisperseSameValue { accounts: Vec<Addr>, amount: u128 },
    /// Admin only: pay each account its coin out of the funds in custody.
    WithdrawFunds { accounts: Vec<Addr>, amounts: Vec<Coin> },
    /// Admin only: hand the admin role to `new_admin`.
    UpdateAdmin { new_admin: Addr },
}

/// The mathematical model of an [`ExecuteMsg`].
pub enum ExecuteMsgView {
    Disperse { accounts: Seq<Seq<char>>, amounts: Seq<u128> },
    DisperseSameValue { accounts: Seq<Seq<char>>, amount: u128 },
    WithdrawFunds { accounts: Seq<Seq<char>>, amounts: Seq<CoinView> },
    UpdateAdmin { new_admin: Seq<char> },
}

impl View for ExecuteMsg {
    type V = ExecuteMsgView;

    open spec fn view(&self) -> ExecuteMsgView {
        match *self {
            ExecuteMsg::Disperse { accounts, amounts } => ExecuteMsgView::Disperse {
                accounts: addrs_view(accounts@),
                amounts: amounts@,
            },
            ExecuteMsg::DisperseSameValue { accounts, amount } => ExecuteMsgView::DisperseSameValue {
                accounts: addrs_view(accounts@),
                amount,
            },
            ExecuteMsg::WithdrawFunds { accounts, amounts } => ExecuteMsgView::WithdrawFunds {
                accounts: addrs_view(accounts@),
                amounts: coins_view(amounts@),
            },
            ExecuteMsg::UpdateAdmin { new_admin } => ExecuteMsgView::UpdateAdmin {
                new_admin: new_admin@,
            },
        }
    }
}

} // verus!
