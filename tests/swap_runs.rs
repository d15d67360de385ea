use std::collections::HashMap;

use token_swap::account::{Account, Identity};
use token_swap::amount::FeeExceedsAmount;
use token_swap::canister::check_subaccount_balance;
use token_swap::ledger::{LedgerCall, LedgerError, LedgerRequest, Reply};
use token_swap::swap::{FromResult, Swap, SwapError, SwapPhase, SwapStep};

type Key = (Identity, Option<[u8; 32]>);

fn key(a: &Account) -> Key {
    (a.owner, a.subaccount)
}

/// A ledger kept in memory that answers requests the way a token ledger does.
struct Book {
    fee: u128,
    balances: HashMap<Key, u128>,
    allowances: HashMap<(Key, Key), u128>,
    transfers_down: bool,
    transfers: usize,
}

impl Book {
    fn new(fee: u128) -> Book {
        Book { fee, balances: HashMap::new(), allowances: HashMap::new(), transfers_down: false, transfers: 0 }
    }

    fn balance(&self, k: &Key) -> u128 {
        *self.balances.get(k).unwrap_or(&0)
    }

    fn answer(&mut self, me: Identity, request: LedgerRequest) -> Reply {
        match request {
            LedgerRequest::Fee => Ok(self.fee),
            LedgerRequest::Allowance { account, spender } => {
                Ok(*self.allowances.get(&(key(&account), key(&spender))).unwrap_or(&0))
            }
            LedgerRequest::BalanceOf { account } => Ok(self.balance(&key(&account))),
            LedgerRequest::TransferFrom { spender_subaccount, from, to, amount, fee } => {
                if self.transfers_down {
                    return Err(LedgerError::Transport { code: 2, message: "unreachable".to_string() });
                }
                if fee.is_some() && fee != Some(self.fee) {
                    return Err(LedgerError::Rejected { reason: "BadFee".to_string() });
                }
                let total = amount + self.fee;
                let from_key = key(&from);
                if self.balance(&from_key) < total {
                    return Err(LedgerError::Rejected { reason: "InsufficientFunds".to_string() });
                }
                let grant = (from_key, (me, spender_subaccount));
                let allowed = *self.allowances.get(&grant).unwrap_or(&0);
                if allowed < total {
                    return Err(LedgerError::Rejected { reason: "InsufficientAllowance".to_string() });
                }
                self.allowances.insert(grant, allowed - total);
                self.balances.insert(from_key, self.balance(&from_key) - total);
                let to_key = key(&to);
                self.balances.insert(to_key, self.balance(&to_key) + amount);
                self.transfers += 1;
                Ok(self.transfers as u128)
            }
            LedgerRequest::Transfer { from_subaccount, to, amount, fee } => {
                if self.transfers_down {
                    return Err(LedgerError::Transport { code: 2, message: "unreachable".to_string() });
                }
                if fee.is_some() && fee != Some(self.fee) {
                    return Err(LedgerError::Rejected { reason: "BadFee".to_string() });
                }
                let total = amount + self.fee;
                let from_key = (me, from_subaccount);
                if self.balance(&from_key) < total {
                    return Err(LedgerError::Rejected { reason: "InsufficientFunds".to_string() });
                }
                self.balances.insert(from_key, self.balance(&from_key) - total);
                let to_key = key(&to);
                self.balances.insert(to_key, self.balance(&to_key) + amount);
                self.transfers += 1;
                Ok(self.transfers as u128)
            }
        }
    }
}

struct World {
    me: Identity,
    caller: Identity,
    a: Identity,
    b: Identity,
    books: HashMap<Identity, Book>,
    log: Vec<(Identity, LedgerRequest)>,
}

fn slot_of(p: &Identity) -> [u8; 32] {
    token_swap::account::get_subaccount(*p)
}

impl World {
    /// Ledger A with fee `fee_a`, where the caller holds `held` and allows the
    /// intermediary `allowance`; ledger B with fee `fee_b`, where the
    /// intermediary holds `reserve`.
    fn new(fee_a: u128, held: u128, allowance: u128, fee_b: u128, reserve: u128) -> World {
        let me = Identity::from_slice(&[0, 0, 0, 0, 0, 0, 0, 9, 1, 1]).unwrap();
        let caller = Identity::from_slice(&[42, 17]).unwrap();
        let a = Identity::from_slice(&[1, 1]).unwrap();
        let b = Identity::from_slice(&[2, 2]).unwrap();
        let mut book_a = Book::new(fee_a);
        book_a.balances.insert((caller, None), held);
        book_a.allowances.insert(((caller, None), (me, Some(slot_of(&caller)))), allowance);
        let mut book_b = Book::new(fee_b);
        book_b.balances.insert((me, None), reserve);
        let mut books = HashMap::new();
        books.insert(a, book_a);
        books.insert(b, book_b);
        World { me, caller, a, b, books, log: Vec::new() }
    }

    fn call(&mut self, c: LedgerCall) -> Reply {
        self.log.push((c.ledger, c.request));
        self.books.get_mut(&c.ledger).unwrap().answer(self.me, c.request)
    }

    fn swap(&mut self) -> Result<FromResult, SwapError> {
        let mut s = Swap::new(self.a, self.b, self.me, self.caller);
        while let Some(c) = s.pending {
            let reply = self.call(c);
            s.step(reply);
        }
        s.finish().unwrap()
    }

    fn balance(&self, ledger: Identity, k: Key) -> u128 {
        self.books[&ledger].balance(&k)
    }

    fn transfers_logged(&self) -> Vec<&LedgerRequest> {
        self.log
            .iter()
            .map(|(_, r)| r)
            .filter(|r| matches!(r, LedgerRequest::Transfer { .. } | LedgerRequest::TransferFrom { .. }))
            .collect()
    }
}

#[test]
fn swap_moves_allowance_less_fees() {
    let mut w = World::new(10, 5000, 1000, 5, 2000);
    let r = w.swap().unwrap();
    assert_eq!(r.allowance, 1000);
    assert_eq!(r.transferred_amount, 985);
    assert_eq!(r.subaccount_balance, 985);
    assert_eq!(r.to_balance, 2000);
    assert_eq!(r.to_transfer, 980);
    let (caller, me, a, b) = (w.caller, w.me, w.a, w.b);
    assert_eq!(w.balance(b, (caller, None)), 980);
    assert_eq!(w.balance(b, (me, None)), 2000 - 980 - 5);
    assert_eq!(w.balance(a, (caller, None)), 5000 - 985 - 10);
    assert_eq!(w.balance(a, (me, Some(slot_of(&caller)))), 0);
    assert_eq!(w.balance(a, (me, None)), 975);
}

#[test]
fn swap_calls_come_in_order() {
    let mut w = World::new(10, 5000, 1000, 5, 2000);
    w.swap().unwrap();
    let kinds: Vec<&str> = w
        .log
        .iter()
        .map(|(_, r)| match r {
            LedgerRequest::Fee => "fee",
            LedgerRequest::Allowance { .. } => "allowance",
            LedgerRequest::BalanceOf { .. } => "balance",
            LedgerRequest::TransferFrom { .. } => "pull",
            LedgerRequest::Transfer { from_subaccount: None, .. } => "push",
            LedgerRequest::Transfer { .. } => "sweep",
        })
        .collect();
    assert_eq!(kinds, vec!["fee", "fee", "allowance", "balance", "pull", "balance", "push", "sweep"]);
    let ledgers: Vec<Identity> = w.log.iter().map(|(l, _)| *l).collect();
    assert_eq!(ledgers, vec![w.a, w.b, w.a, w.b, w.a, w.a, w.b, w.a]);
}

#[test]
fn swap_stops_when_destination_is_short() {
    let mut w = World::new(10, 5000, 1000, 5, 500);
    let r = w.swap();
    assert_eq!(r, Err(SwapError::Underfunded { needed: 1000, available: 500 }));
    assert!(w.transfers_logged().is_empty());
    let (caller, a) = (w.caller, w.a);
    assert_eq!(w.balance(a, (caller, None)), 5000);
}

#[test]
fn failed_push_leaves_funds_in_slot() {
    let mut w = World::new(10, 5000, 1000, 5, 2000);
    w.books.get_mut(&w.b).unwrap().transfers_down = true;
    let r = w.swap();
    match r {
        Err(SwapError::Ledger { step: SwapStep::Push, ledger, error: LedgerError::Transport { .. } }) => {
            assert_eq!(ledger, w.b)
        }
        other => panic!("unexpected outcome {:?}", other),
    }
    let check = check_subaccount_balance(w.a, w.me, w.caller);
    assert_eq!(w.call(check), Ok(985));
}

#[test]
fn zero_allowance_is_refused_by_the_ledger() {
    let mut w = World::new(10, 0, 0, 5, 2000);
    let r = w.swap();
    assert_eq!(
        r,
        Err(SwapError::Ledger {
            step: SwapStep::Pull,
            ledger: w.a,
            error: LedgerError::Rejected { reason: "InsufficientFunds".to_string() },
        })
    );
    assert!(!w.log.iter().any(|(_, r)| matches!(r, LedgerRequest::Transfer { .. })));
}

#[test]
fn allowance_read_failure_stops_before_pull() {
    let mut w = World::new(10, 5000, 1000, 5, 2000);
    let mut s = Swap::new(w.a, w.b, w.me, w.caller);
    for _ in 0..2 {
        let c = s.pending.unwrap();
        let reply = w.call(c);
        s.step(reply);
    }
    assert!(matches!(s.pending.unwrap().request, LedgerRequest::Allowance { .. }));
    s.step(Err(LedgerError::Transport { code: 5, message: "canister error".to_string() }));
    assert_eq!(s.pending, None);
    s.step(Ok(1));
    assert_eq!(s.pending, None);
    match s.finish() {
        Some(Err(SwapError::Ledger { step: SwapStep::Allowance, .. })) => {}
        other => panic!("unexpected outcome {:?}", other),
    }
    assert!(w.transfers_logged().is_empty());
}

#[test]
fn small_allowance_is_refused_before_any_transfer() {
    let mut w = World::new(10, 5000, 15, 5, 2000);
    assert_eq!(
        w.swap(),
        Err(SwapError::Fees {
            step: SwapStep::Pull,
            detail: FeeExceedsAmount { amount: 15, fee: 10, later_fee: 5 },
        })
    );
    assert!(w.transfers_logged().is_empty());
}

#[test]
fn slot_too_small_for_push_fee() {
    let mut w = World::new(10, 5000, 18, 5, 2000);
    assert_eq!(
        w.swap(),
        Err(SwapError::Fees {
            step: SwapStep::Push,
            detail: FeeExceedsAmount { amount: 3, fee: 5, later_fee: 0 },
        })
    );
    let (me, caller, a) = (w.me, w.caller, w.a);
    assert_eq!(w.balance(a, (me, Some(slot_of(&caller)))), 3);
}

#[test]
fn slot_too_small_for_sweep_fee() {
    let mut w = World::new(10, 5000, 22, 5, 2000);
    assert_eq!(
        w.swap(),
        Err(SwapError::Fees {
            step: SwapStep::Sweep,
            detail: FeeExceedsAmount { amount: 7, fee: 10, later_fee: 0 },
        })
    );
    let (caller, b) = (w.caller, w.b);
    assert_eq!(w.balance(b, (caller, None)), 2);
}

#[test]
fn repeated_reads_agree() {
    let mut w = World::new(10, 5000, 1000, 5, 2000);
    let l = token_swap::ledger::Ledger::new(w.a);
    let q1 = l.get_allowance(w.me, w.caller);
    let q2 = l.get_allowance(w.me, w.caller);
    assert_eq!(q1, q2);
    assert_eq!(w.call(q1), w.call(q2));
    assert_eq!(w.call(q1), Ok(1000));
    let b1 = l.get_balance(w.me, None);
    let b2 = l.get_balance(w.me, None);
    assert_eq!(w.call(b1), w.call(b2));
}

#[test]
fn finished_swap_ignores_more_replies() {
    let mut w = World::new(10, 5000, 1000, 5, 2000);
    let mut s = Swap::new(w.a, w.b, w.me, w.caller);
    while let Some(c) = s.pending {
        let reply = w.call(c);
        s.step(reply);
    }
    assert_eq!(s.phase, SwapPhase::Done);
    s.step(Err(LedgerError::Rejected { reason: "late".to_string() }));
    assert_eq!(s.phase, SwapPhase::Done);
    assert_eq!(s.finish().unwrap().unwrap().to_transfer, 980);
}

#[test]
fn slot_equal_to_push_fee_pushes_nothing() {
    let mut w = World::new(10, 5000, 20, 5, 2000);
    assert_eq!(
        w.swap(),
        Err(SwapError::Fees {
            step: SwapStep::Sweep,
            detail: FeeExceedsAmount { amount: 5, fee: 10, later_fee: 0 },
        })
    );
    assert!(w.log.iter().any(|(l, r)| *l == w.b
        && matches!(r, LedgerRequest::Transfer { from_subaccount: None, amount: 0, fee: Some(5), .. })));
    let (caller, b) = (w.caller, w.b);
    assert_eq!(w.balance(b, (caller, None)), 0);
}

#[test]
fn slot_equal_to_sweep_fee_sweeps_nothing() {
    let mut w = World::new(10, 5000, 25, 5, 2000);
    let r = w.swap().unwrap();
    assert_eq!(r.transferred_amount, 10);
    assert_eq!(r.subaccount_balance, 10);
    assert_eq!(r.to_transfer, 5);
    let (me, caller, a) = (w.me, w.caller, w.a);
    assert_eq!(w.balance(a, (me, Some(slot_of(&caller)))), 0);
    assert_eq!(w.balance(a, (me, None)), 0);
}

#[test]
fn distinct_identities_are_unequal_and_get_distinct_slots() {
    let a = Identity::from_slice(&[1, 0]).unwrap();
    let b = Identity::from_slice(&[1]).unwrap();
    assert_ne!(a, b);
    assert_ne!(slot_of(&a), slot_of(&b));
    assert_eq!(Identity::from_slice(&[1]).unwrap(), b);
}
