//! Accounts, coins, transfers and the response handed back to the host.

use vstd::prelude::*;

verus! {

/// An account. Two accounts are the same when their text is the same.
#[derive(Debug, Clone, PartialEq, Eq)]
pub struct Addr {
    pub text: String,
}

impl View for Addr {
    type V = Seq<char>;

    open spec fn view(&self) -> Seq<char> {
        self.text@
    }
}

impl Addr {
    /// Wraps `text` as an account without validating it.
    pub fn unchecked(text: String) -> (r: Addr)
        ensures
            r@ == text@,
    {
        Addr { text }
    }

    /// The account's text.
    pub fn as_str(&self) -> (r: &str)
        ensures
            r@ == self@,
    {
        self.text.as_str()
    }

    /// Unwraps the account's text.
    pub fn into_string(self) -> (r: String)
        ensures
            r@ == self@,
    {
        self.text
    }

    /// A second handle on the same account.
    pub fn duplicate(&self) -> (r: Addr)
        ensures
            r@ == self@,
    {
        Addr { text: self.text.clone() }
    }

    /// Whether both handles name the same account.
    pub fn same(&self, other: &Addr) -> (r: bool)
        ensures
            r == (self@ == other@),
    {
        self.text == other.text
    }
}

/// An amount of money in one denomination.
#[derive(Debug, Clone, PartialEq, Eq)]
pub struct Coin {
    pub denom: String,
    pub amount: u128,
}

/// The mathematical model of a [`Coin`].
pub struct CoinView {
    pub denom: Seq<char>,
    pub amount: nat,
}

impl View for Coin {
    type V = CoinView;

    open spec fn view(&self) -> CoinView {
        CoinView { denom: self.denom@, amount: self.amount as nat }
    }
}

impl Coin {
    /// `amount` units of `denom`.
    pub fn new(amount: u128, denom: String) -> (r: Coin)
        ensures
            r@ == (CoinView { denom: denom@, amount: amount as nat }),
    {
        Coin { denom, amount }
    }
}

/// An instruction to the host: pay `amount` to `to_address`.
#[derive(Debug, Clone, PartialEq, Eq)]
pub struct Transfer {
    pub to_address: Addr,
    pub amount: Vec<Coin>,
}

/// The mathematical model of a [`Transfer`].
pub struct TransferView {
    pub to_address: Seq<char>,
    pub amount: Seq<CoinView>,
}

impl View for Transfer {
    type V = TransferView;

    open spec fn view(&self) -> TransferView {
        TransferView { to_address: self.to_address@, amount: coins_view(self.amount@) }
    }
}

/// The outcome of an accepted call: transfers for the host to carry out, in
/// order, and a tag that names the action taken, if any.
#[derive(Debug, Clone, PartialEq, Eq)]
pub struct Response {
    pub messages: Vec<Transfer>,
    pub action: Option<String>,
}

/// The mathematical model of a [`Response`].
pub struct ResponseView {
    pub messages: Seq<TransferView>,
    pub action: Option<Seq<char>>,
}

impl View for Response {
    type V = ResponseView;

    open spec fn view(&self) -> ResponseView {
        ResponseView {
            messages: transfers_view(self.messages@),
            action: match self.action {
                Some(tag) => Some(tag@),
                None => None,
            },
        }
    }
}

impl Response {
    /// A response with no transfers and no action tag.
    pub fn new() -> (r: Response)
        ensures
            r@ == ResponseView::empty(),
    {
        let r = Response { messages: Vec::new(), action: None };
        assert(transfers_view(r.messages@) =~= Seq::empty());
        r
    }
}

impl ResponseView {
    /// The model of a response with no transfers and no action tag.
    pub open spec fn empty() -> ResponseView {
        ResponseView { messages: Seq::empty(), action: None }
    }
}

/// Who called, and the funds attached to the call.
#[derive(Debug, Clone, PartialEq, Eq)]
pub struct MessageInfo {
    pub sender: Addr,
    pub funds: Vec<Coin>,
}

/// The mathematical model of a [`MessageInfo`].
pub struct MessageInfoView {
    pub sender: Seq<char>,
    pub funds: Seq<CoinView>,
}

impl View for MessageInfo {
    type V = MessageInfoView;

    open spec fn view(&self) -> MessageInfoView {
        MessageInfoView { sender: self.sender@, funds: coins_view(self.funds@) }
    }
}

/// The models of a sequence of accounts, in order.
pub open spec fn addrs_view(addrs: Seq<Addr>) -> Seq<Seq<char>> {
    Seq::new(addrs.len(), |i: int| addrs[i]@)
}

/// The models of a sequence of coins, in order.
pub open spec fn coins_view(coins: Seq<Coin>) -> Seq<CoinView> {
    Seq::new(coins.len(), |i: int| coins[i]@)
}

/// The models of a sequence of transfers, in order.
pub open spec fn transfers_view(transfers: Seq<Transfer>) -> Seq<TransferView> {
    Seq::new(transfers.len(), |i: int| transfers[i]@)
}

/// The model of a call's outcome.
pub open spec fn outcome_view(
    r: Result<Response, crate::error::ContractError>,
) -> Result<ResponseView, crate::error::ErrorView> {
    match r {
        Ok(response) => Ok(response@),
        Err(e) => Err(e@),
    }
}

} // verus!
