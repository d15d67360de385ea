use vstd::prelude::*;
use crate::account::{Account, Identity, get_subaccount};
use crate::ledger::{
    Ledger, LedgerCall, LedgerRequest, allowance_request, balance_request, default_account,
    slot_account,
};

verus! {

/// The request for what `principal` allows the intermediary `me` to pull on
/// the ledger at `ledger`.
pub fn get_allowance(ledger: Identity, me: Identity, principal: Identity) -> (r: LedgerCall)
    ensures
        r == (LedgerCall { ledger, request: allowance_request(me, principal) }),
{
    Ledger::new(ledger).get_allowance(me, principal)
}

/// The pull of exactly `amount` from the default account of `caller` into its
/// holding slot within the accounts of `me`, on the ledger at `ledger`; the
/// ledger applies its own fee.
pub fn handle_transaction(ledger: Identity, me: Identity, caller: Identity, amount: u128) -> (r:
    LedgerCall)
    ensures
        r == (LedgerCall {
            ledger,
            request: LedgerRequest::TransferFrom {
                spender_subaccount: slot_account(me, caller).subaccount,
                from: default_account(caller),
                to: slot_account(me, caller),
                amount,
                fee: None,
            },
        }),
{
    let slot = get_subaccount(caller);
    let request = LedgerRequest::TransferFrom {
        spender_subaccount: Some(slot),
        from: Account { owner: caller, subaccount: None },
        to: Account { owner: me, subaccount: Some(slot) },
        amount,
        fee: None,
    };
    LedgerCall { ledger, request }
}

/// The request for the balance of the holding slot of `principal` within the
/// accounts of `me`, on the ledger at `ledger`: where funds of an unfinished
/// swap wait.
pub fn check_subaccount_balance(ledger: Identity, me: Identity, principal: Identity) -> (r:
    LedgerCall)
    ensures
        r == (LedgerCall { ledger, request: balance_request(me, Some(principal)) }),
{
    Ledger::new(ledger).get_balance(me, Some(principal))
}

} // verus!
