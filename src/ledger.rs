use vstd::prelude::*;
use crate::account::{Account, Identity, get_subaccount, slot_of};
use crate::amount::{FeeExceedsAmount, net_after_fee, net_after_two_leg_fees};

verus! {

/// One request to a ledger, as the ledger's interface takes it.
#[derive(Clone, Copy, Debug, PartialEq, Eq)]
pub enum LedgerRequest {
    /// The ledger's current fee for one transfer.
    Fee,
    /// How much `spender` may still take out of `account`.
    Allowance { account: Account, spender: Account },
    /// The balance of `account`.
    BalanceOf { account: Account },
    /// Move `amount` from `from` to `to` on the strength of an allowance given
    /// to the intermediary's slot `spender_subaccount`.
    TransferFrom {
        spender_subaccount: Option<[u8; 32]>,
        from: Account,
        to: Account,
        amount: u128,
        fee: Option<u128>,
    },
    /// Move `amount` from one of the intermediary's own accounts to `to`.
    Transfer { from_subaccount: Option<[u8; 32]>, to: Account, amount: u128, fee: Option<u128> },
}

/// A request together with the ledger it is addressed to.
#[derive(Clone, Copy, Debug, PartialEq, Eq)]
pub struct LedgerCall {
    pub ledger: Identity,
    pub request: LedgerRequest,
}

/// How a ledger call failed.
#[derive(Clone, Debug, PartialEq, Eq)]
pub enum LedgerError {
    /// The ledger could not be reached, or refused the call itself.
    Transport { code: i32, message: String },
    /// The ledger ran the request and declined it; the reason is the ledger's.
    Rejected { reason: String },
}

/// What a ledger answers: the number it returns (a fee, an allowance, a
/// balance or the index of a transfer's block), or how the call failed.
pub type Reply = Result<u128, LedgerError>;

/// The default account of `owner`.
pub open spec fn default_account(owner: Identity) -> Account {
    Account { owner, subaccount: None }
}

/// The holding slot of `p` within the accounts of `me`.
pub open spec fn slot_account(me: Identity, p: Identity) -> Account {
    Account { owner: me, subaccount: Some(slot_of(p)) }
}

/// What `principal` allows its holding slot within the accounts of `me` to
/// take out of its default account.
pub open spec fn allowance_request(me: Identity, principal: Identity) -> LedgerRequest {
    LedgerRequest::Allowance {
        account: default_account(principal),
        spender: slot_account(me, principal),
    }
}

/// The balance of the account of `me` named by `principal`: its default
/// account, or the holding slot of the identity given.
pub open spec fn balance_request(me: Identity, principal: Option<Identity>) -> LedgerRequest {
    LedgerRequest::BalanceOf {
        account: match principal {
            Some(p) => slot_account(me, p),
            None => default_account(me),
        },
    }
}

/// Move `amount` out of the default account of `from` into its holding slot
/// within the accounts of `me`, under the allowance given to that slot; a
/// `fee` of `None` leaves the fee to the ledger.
pub open spec fn pull_request(
    me: Identity,
    from: Identity,
    amount: u128,
    fee: Option<u128>,
) -> LedgerRequest {
    LedgerRequest::TransferFrom {
        spender_subaccount: Some(slot_of(from)),
        from: default_account(from),
        to: slot_account(me, from),
        amount,
        fee,
    }
}

/// Move `amount` out of the holding slot of `p` into `to`.
pub open spec fn slot_transfer_request(
    p: Identity,
    to: Account,
    amount: u128,
    fee: Option<u128>,
) -> LedgerRequest {
    LedgerRequest::Transfer { from_subaccount: Some(slot_of(p)), to, amount, fee }
}

/// Move `amount` out of the intermediary's default account to the default
/// account of `to`.
pub open spec fn push_request(to: Identity, amount: u128, fee: u128) -> LedgerRequest {
    LedgerRequest::Transfer { from_subaccount: None, to: default_account(to), amount, fee: Some(fee) }
}

fn make_slot_account(me: Identity, p: Identity) -> (r: Account)
    ensures
        r == slot_account(me, p),
{
    Account { owner: me, subaccount: Some(get_subaccount(p)) }
}

/// A handle on one ledger, with the fee it charges for a transfer as last read.
#[derive(Clone, Copy, Debug, PartialEq, Eq)]
pub struct Ledger {
    pub canister: Identity,
    pub fee: u128,
}

impl Ledger {
    /// A handle on the ledger at `canister`, with no fee read yet.
    pub fn new(canister: Identity) -> (r: Ledger)
        ensures
            r.canister == canister,
            r.fee == 0,
    {
        Ledger { canister, fee: 0 }
    }

    /// Records the fee that the ledger quoted.
    pub fn set_fee(&mut self, fee: u128)
        ensures
            final(self).canister == old(self).canister,
            final(self).fee == fee,
    {
        self.fee = fee;
    }

    /// The request for the ledger's current transfer fee.
    pub fn get_fee(&self) -> (r: LedgerCall)
        ensures
            r == (LedgerCall { ledger: self.canister, request: LedgerRequest::Fee }),
    {
        LedgerCall { ledger: self.canister, request: LedgerRequest::Fee }
    }

    /// The request for what `principal` allows the intermediary `me` to pull,
    /// the allowance being granted to the holding slot of `principal`.
    pub fn get_allowance(&self, me: Identity, principal: Identity) -> (r: LedgerCall)
        ensures
            r == (LedgerCall { ledger: self.canister, request: allowance_request(me, principal) }),
    {
        let account = Account { owner: principal, subaccount: None };
        let spender = make_slot_account(me, principal);
        LedgerCall { ledger: self.canister, request: LedgerRequest::Allowance { account, spender } }
    }

    /// The request for a balance of the intermediary `me`: its default account
    /// when `principal` is `None`, else the holding slot of `principal`.
    pub fn get_balance(&self, me: Identity, principal: Option<Identity>) -> (r: LedgerCall)
        ensures
            r == (LedgerCall { ledger: self.canister, request: balance_request(me, principal) }),
    {
        let account = match principal {
            Some(p) => make_slot_account(me, p),
            None => Account { owner: me, subaccount: None },
        };
        LedgerCall { ledger: self.canister, request: LedgerRequest::BalanceOf { account } }
    }

    /// The pull of exactly `amount` from `from` into its holding slot within
    /// the accounts of `me`, stating `fee`; the ledger's fee comes on top.
    pub fn pull_into_slot(&self, me: Identity, from: Identity, amount: u128, fee: Option<u128>) -> (r:
        LedgerCall)
        ensures
            r == (LedgerCall { ledger: self.canister, request: pull_request(me, from, amount, fee) }),
    {
        let to = make_slot_account(me, from);
        let request = LedgerRequest::TransferFrom {
            spender_subaccount: to.subaccount,
            from: Account { owner: from, subaccount: None },
            to,
            amount,
            fee,
        };
        LedgerCall { ledger: self.canister, request }
    }

    /// The pull of `amount` from `from` into its holding slot when the funds
    /// go on to a second ledger whose fee is `later_fee`: what is moved is
    /// `amount` less this ledger's fee and `later_fee`, and the fee is left
    /// to the ledger. Refused, before any transfer, unless something is left.
    pub fn from_ledger_to_canister_transaction(
        &self,
        me: Identity,
        from: Identity,
        amount: u128,
        later_fee: u128,
    ) -> (r: Result<LedgerCall, FeeExceedsAmount>)
        ensures
            amount > self.fee + later_fee ==> r == Ok::<LedgerCall, FeeExceedsAmount>(
                LedgerCall {
                    ledger: self.canister,
                    request: pull_request(me, from, (amount - self.fee - later_fee) as u128, None),
                },
            ),
            amount <= self.fee + later_fee ==> r == Err::<LedgerCall, FeeExceedsAmount>(
                FeeExceedsAmount { amount, fee: self.fee, later_fee },
            ),
    {
        match net_after_two_leg_fees(amount, self.fee, later_fee) {
            Ok(moved) => Ok(self.pull_into_slot(me, from, moved, None)),
            Err(e) => Err(e),
        }
    }

    /// The pull of `amount` from `from` into its holding slot, paying this
    /// ledger's fee out of it. Refused where the fee exceeds the amount.
    pub fn transfer_from_to_swap_subaccount(&self, me: Identity, from: Identity, amount: u128) -> (r:
        Result<LedgerCall, FeeExceedsAmount>)
        ensures
            amount >= self.fee ==> r == Ok::<LedgerCall, FeeExceedsAmount>(
                LedgerCall {
                    ledger: self.canister,
                    request: pull_request(me, from, (amount - self.fee) as u128, Some(self.fee)),
                },
            ),
            amount < self.fee ==> r == Err::<LedgerCall, FeeExceedsAmount>(
                FeeExceedsAmount { amount, fee: self.fee, later_fee: 0 },
            ),
    {
        match net_after_fee(amount, self.fee) {
            Ok(moved) => Ok(self.pull_into_slot(me, from, moved, Some(self.fee))),
            Err(e) => Err(e),
        }
    }

    /// The push of `amount` from the intermediary's default account to the
    /// default account of `to`, paying this ledger's fee out of it. Refused
    /// where the fee exceeds the amount.
    pub fn from_canister_to_caller_transaction(&self, to: Identity, amount: u128) -> (r: Result<
        LedgerCall,
        FeeExceedsAmount,
    >)
        ensures
            amount >= self.fee ==> r == Ok::<LedgerCall, FeeExceedsAmount>(
                LedgerCall {
                    ledger: self.canister,
                    request: push_request(to, (amount - self.fee) as u128, self.fee),
                },
            ),
            amount < self.fee ==> r == Err::<LedgerCall, FeeExceedsAmount>(
                FeeExceedsAmount { amount, fee: self.fee, later_fee: 0 },
            ),
    {
        let moved = match net_after_fee(amount, self.fee) {
            Ok(m) => m,
            Err(e) => return Err(e),
        };
        let request = LedgerRequest::Transfer {
            from_subaccount: None,
            to: Account { owner: to, subaccount: None },
            amount: moved,
            fee: Some(self.fee),
        };
        Ok(LedgerCall { ledger: self.canister, request })
    }

    /// The payout of `amount` from the holding slot of `to` to the default
    /// account of `to`, paying this ledger's fee out of it. Refused where the
    /// fee exceeds the amount.
    pub fn from_canister_to_subaccount_to_caller_transaction(&self, to: Identity, amount: u128) -> (r:
        Result<LedgerCall, FeeExceedsAmount>)
        ensures
            amount >= self.fee ==> r == Ok::<LedgerCall, FeeExceedsAmount>(
                LedgerCall {
                    ledger: self.canister,
                    request: slot_transfer_request(
                        to,
                        default_account(to),
                        (amount - self.fee) as u128,
                        Some(self.fee),
                    ),
                },
            ),
            amount < self.fee ==> r == Err::<LedgerCall, FeeExceedsAmount>(
                FeeExceedsAmount { amount, fee: self.fee, later_fee: 0 },
            ),
    {
        let moved = match net_after_fee(amount, self.fee) {
            Ok(m) => m,
            Err(e) => return Err(e),
        };
        let request = LedgerRequest::Transfer {
            from_subaccount: Some(get_subaccount(to)),
            to: Account { owner: to, subaccount: None },
            amount: moved,
            fee: Some(self.fee),
        };
        Ok(LedgerCall { ledger: self.canister, request })
    }

    /// The sweep of `amount` from the holding slot of `principal` into the
    /// default account of the intermediary `me`, paying this ledger's fee out
    /// of it. Refused where the fee exceeds the amount.
    pub fn internal_transaction(&self, me: Identity, principal: Identity, amount: u128) -> (r:
        Result<LedgerCall, FeeExceedsAmount>)
        ensures
            amount >= self.fee ==> r == Ok::<LedgerCall, FeeExceedsAmount>(
                LedgerCall {
                    ledger: self.canister,
                    request: slot_transfer_request(
                        principal,
                        default_account(me),
                        (amount - self.fee) as u128,
                        None,
                    ),
                },
            ),
            amount < self.fee ==> r == Err::<LedgerCall, FeeExceedsAmount>(
                FeeExceedsAmount { amount, fee: self.fee, later_fee: 0 },
            ),
    {
        let moved = match net_after_fee(amount, self.fee) {
            Ok(m) => m,
            Err(e) => return Err(e),
        };
        let request = LedgerRequest::Transfer {
            from_subaccount: Some(get_subaccount(principal)),
            to: Account { owner: me, subaccount: None },
            amount: moved,
            fee: None,
        };
        Ok(LedgerCall { ledger: self.canister, request })
    }
}

} // verus!
