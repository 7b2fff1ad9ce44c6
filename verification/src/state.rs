//! The admin record and the guard on privileged operations.

use crate::bank::{Addr, MessageInfo};
use crate::error::{ContractError, ErrorView};
use vstd::prelude::*;

verus! {

/// The contract's persisted record: who the admin is.
#[derive(Debug, Clone, PartialEq, Eq)]
pub struct State {
    pub admin: Addr,
}

/// The mathematical model of a [`State`].
pub struct StateView {
    pub admin: Seq<char>,
}

impl View for State {
    type V = StateView;

    open spec fn view(&self) -> StateView {
        StateView { admin: self.admin@ }
    }
}

impl StateView {
    /// The guard on privileged operations: only the admin passes.
    pub open spec fn authorize(self, sender: Seq<char>) -> Result<(), ErrorView> {
        if sender == self.admin {
            Ok(())
        } else {
            Err(ErrorView::Unauthorized)
        }
    }

    /// The record after `sender` asks to make `new_admin` the admin: replaced
    /// when `sender` is the admin, untouched otherwise.
    pub open spec fn transfer(self, sender: Seq<char>, new_admin: Seq<char>) -> StateView {
        if sender == self.admin {
            StateView { admin: new_admin }
        } else {
            self
        }
    }
}

/// The model of a guard's outcome.
pub open spec fn guard_view(r: Result<(), ContractError>) -> Result<(), ErrorView> {
    match r {
        Ok(()) => Ok(()),
        Err(e) => Err(e@),
    }
}

impl State {
    fn is_admin(&self, sender: &Addr) -> (r: bool)
        ensures
            r == (sender@ == self@.admin),
    {
        sender.same(&self.admin)
    }

    /// Succeeds when `sender` is the admin, and fails with `Unauthorized`
    /// otherwise.
    pub fn only_admin(&self, sender: &Addr) -> (r: Result<(), ContractError>)
        ensures
            guard_view(r) == self@.authorize(sender@),
    {
        if !self.is_admin(sender) {
            return Err(ContractError::Unauthorized {  });
        }
        Ok(())
    }

    /// Makes `new_admin` the admin when the caller is the admin; otherwise
    /// fails with `Unauthorized` and leaves the record as it was.
    pub fn set_admin(&mut self, info: &MessageInfo, new_admin: &Addr) -> (r: Result<
        (),
        ContractError,
    >)
        ensures
            guard_view(r) == old(self)@.authorize(info@.sender),
            final(self)@ == old(self)@.transfer(info@.sender, new_admin@),
            r is Err ==> *final(self) == *old(self),
    {
        match self.only_admin(&info.sender) {
            Ok(()) => {
                self.admin = new_admin.duplicate();
                Ok(())
            },
            Err(e) => Err(e),
        }
    }
}

} // verus!
