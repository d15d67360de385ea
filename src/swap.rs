use vstd::prelude::*;
use crate::account::Identity;
use crate::amount::FeeExceedsAmount;
use crate::ledger::{
    Ledger, LedgerCall, LedgerError, LedgerRequest, Reply, allowance_request, balance_request,
    default_account, pull_request, push_request, slot_transfer_request,
};

verus! {

/// The figures of a finished swap, kept for audit.
#[derive(Clone, Copy, Debug, PartialEq, Eq)]
pub struct FromResult {
    /// The allowance the caller had given on the source ledger.
    pub allowance: u128,
    /// What the pull moved into the caller's holding slot.
    pub transferred_amount: u128,
    /// The holding slot's balance, read after the pull.
    pub subaccount_balance: u128,
    /// The intermediary's balance on the destination ledger before the push.
    pub to_balance: u128,
    /// What the push sent to the caller on the destination ledger.
    pub to_transfer: u128,
}

/// The steps of a swap, in the order in which they run.
#[derive(Clone, Copy, Debug, PartialEq, Eq)]
pub enum SwapStep {
    FromFee,
    ToFee,
    Allowance,
    ToBalance,
    Pull,
    SlotBalance,
    Push,
    Sweep,
}

/// Why a swap stopped.
#[derive(Clone, Debug, PartialEq, Eq)]
pub enum SwapError {
    /// The call of `step` to `ledger` failed.
    Ledger { step: SwapStep, ledger: Identity, error: LedgerError },
    /// The destination ledger holds less than the allowance to be swapped.
    Underfunded { needed: u128, available: u128 },
    /// The fees of the transfer of `step` exceed its amount (for the pull,
    /// which pays two fees: leave nothing of it); it was never sent.
    Fees { step: SwapStep, detail: FeeExceedsAmount },
}

/// Where a swap stands.
#[derive(Clone, Debug, PartialEq, Eq)]
pub enum SwapPhase {
    /// The reply to the call of this step is awaited.
    Awaiting(SwapStep),
    Done,
    Aborted(SwapError),
}

/// One swap of the caller's allowance on the `from` ledger for the same
/// value, less fees, on the `to` ledger, through the intermediary `me`.
#[derive(Clone, Debug, PartialEq, Eq)]
pub struct Swap {
    pub from: Ledger,
    pub to: Ledger,
    pub me: Identity,
    pub caller: Identity,
    pub phase: SwapPhase,
    pub figures: FromResult,
    /// The call to make next; its reply goes to `step`.
    pub pending: Option<LedgerCall>,
}

/// The ledger that the call of `step` goes to.
pub open spec fn ledger_of(s: Swap, step: SwapStep) -> Identity {
    match step {
        SwapStep::ToFee | SwapStep::ToBalance | SwapStep::Push => s.to.canister,
        _ => s.from.canister,
    }
}

/// `s` stopped for `e`, with nothing more to call.
pub open spec fn aborted(s: Swap, e: SwapError) -> Swap {
    Swap { phase: SwapPhase::Aborted(e), pending: None, ..s }
}

/// `s` awaits the reply of `step` to `call`.
pub open spec fn awaiting(s: Swap, step: SwapStep, call: LedgerCall) -> Swap {
    Swap { phase: SwapPhase::Awaiting(step), pending: Some(call), ..s }
}

/// Where `s`, awaiting `step`, goes when the ledger answers `v`.
pub open spec fn advance(s: Swap, step: SwapStep, v: u128) -> Swap {
    let ff = s.from.fee;
    let ft = s.to.fee;
    let a = s.figures.allowance;
    match step {
        SwapStep::FromFee => awaiting(
            Swap { from: Ledger { fee: v, ..s.from }, ..s },
            SwapStep::ToFee,
            LedgerCall { ledger: s.to.canister, request: LedgerRequest::Fee },
        ),
        SwapStep::ToFee => awaiting(
            Swap { to: Ledger { fee: v, ..s.to }, ..s },
            SwapStep::Allowance,
            LedgerCall { ledger: s.from.canister, request: allowance_request(s.me, s.caller) },
        ),
        SwapStep::Allowance => awaiting(
            Swap { figures: FromResult { allowance: v, ..s.figures }, ..s },
            SwapStep::ToBalance,
            LedgerCall { ledger: s.to.canister, request: balance_request(s.me, None) },
        ),
        SwapStep::ToBalance => if v < a {
            aborted(s, SwapError::Underfunded { needed: a, available: v })
        } else if a != 0 && a <= ff + ft {
            aborted(
                s,
                SwapError::Fees {
                    step: SwapStep::Pull,
                    detail: FeeExceedsAmount { amount: a, fee: ff, later_fee: ft },
                },
            )
        } else {
            let moved = if a == 0 {
                0u128
            } else {
                (a - ff - ft) as u128
            };
            awaiting(
                Swap {
                    figures: FromResult { to_balance: v, transferred_amount: moved, ..s.figures },
                    ..s
                },
                SwapStep::Pull,
                LedgerCall { ledger: s.from.canister, request: pull_request(s.me, s.caller, moved, None) },
            )
        },
        SwapStep::Pull => awaiting(
            s,
            SwapStep::SlotBalance,
            LedgerCall { ledger: s.from.canister, request: balance_request(s.me, Some(s.caller)) },
        ),
        SwapStep::SlotBalance => if v < ft {
            aborted(
                s,
                SwapError::Fees {
                    step: SwapStep::Push,
                    detail: FeeExceedsAmount { amount: v, fee: ft, later_fee: 0 },
                },
            )
        } else {
            awaiting(
                Swap {
                    figures: FromResult {
                        subaccount_balance: v,
                        to_transfer: (v - ft) as u128,
                        ..s.figures
                    },
                    ..s
                },
                SwapStep::Push,
                LedgerCall { ledger: s.to.canister, request: push_request(s.caller, (v - ft) as u128, ft) },
            )
        },
        SwapStep::Push => {
            let b = s.figures.subaccount_balance;
            if b < ff {
                aborted(
                    s,
                    SwapError::Fees {
                        step: SwapStep::Sweep,
                        detail: FeeExceedsAmount { amount: b, fee: ff, later_fee: 0 },
                    },
                )
            } else {
                awaiting(
                    s,
                    SwapStep::Sweep,
                    LedgerCall {
                        ledger: s.from.canister,
                        request: slot_transfer_request(
                            s.caller,
                            default_account(s.me),
                            (b - ff) as u128,
                            None,
                        ),
                    },
                )
            }
        },
        SwapStep::Sweep => Swap { phase: SwapPhase::Done, pending: None, ..s },
    }
}

/// Where `s` goes on `reply`: a failed call stops the swap; a finished or
/// stopped swap stays as it is.
pub open spec fn next(s: Swap, reply: Reply) -> Swap {
    match s.phase {
        SwapPhase::Awaiting(step) => match reply {
            Ok(v) => advance(s, step, v),
            Err(e) => aborted(s, SwapError::Ledger { step, ledger: ledger_of(s, step), error: e }),
        },
        _ => s,
    }
}

/// A swap just begun: the fee of the source ledger is asked for first.
pub open spec fn is_start(s: Swap) -> bool {
    &&& s.phase == SwapPhase::Awaiting(SwapStep::FromFee)
    &&& s.pending == Some(LedgerCall { ledger: s.from.canister, request: LedgerRequest::Fee })
}


/// The swap that `s` becomes after the first `n` of `replies`.
pub open spec fn run(s: Swap, replies: Seq<Reply>, n: nat) -> Swap
    decreases n,
{
    if n == 0 {
        s
    } else {
        next(run(s, replies, (n - 1) as nat), replies[n - 1])
    }
}

/// How far along its steps a swap is; a stopped swap has no place.
pub open spec fn progress(p: SwapPhase) -> int {
    match p {
        SwapPhase::Awaiting(SwapStep::FromFee) => 0,
        SwapPhase::Awaiting(SwapStep::ToFee) => 1,
        SwapPhase::Awaiting(SwapStep::Allowance) => 2,
        SwapPhase::Awaiting(SwapStep::ToBalance) => 3,
        SwapPhase::Awaiting(SwapStep::Pull) => 4,
        SwapPhase::Awaiting(SwapStep::SlotBalance) => 5,
        SwapPhase::Awaiting(SwapStep::Push) => 6,
        SwapPhase::Awaiting(SwapStep::Sweep) => 7,
        SwapPhase::Done => 8,
        SwapPhase::Aborted(_) => -1,
    }
}

/// One reply moves a swap that does not stop at most one step on, and only
/// a successful reply moves it at all.
proof fn lemma_next_progress(s: Swap, reply: Reply)
    ensures
        !(next(s, reply).phase is Aborted) ==> !(s.phase is Aborted),
        s.phase is Aborted ==> next(s, reply).phase is Aborted,
        !(next(s, reply).phase is Aborted) ==> progress(next(s, reply).phase) == progress(s.phase)
            || (progress(next(s, reply).phase) == progress(s.phase) + 1 && reply is Ok
            && s.phase is Awaiting),
{
}

/// A swap that has got past the place `x` without stopping was at `x` at
/// some earlier reply, and that reply was a success.
proof fn lemma_passed_through(s: Swap, replies: Seq<Reply>, i: nat, x: int)
    requires
        i <= replies.len(),
        !(run(s, replies, i).phase is Aborted),
        progress(s.phase) <= x < progress(run(s, replies, i).phase),
    ensures
        exists|j: nat|
            j < i && !(#[trigger] run(s, replies, j).phase is Aborted) && progress(
                run(s, replies, j).phase,
            ) == x && replies[j as int] is Ok,
    decreases i,
{
    if i == 0 {
    } else {
        let k = (i - 1) as nat;
        lemma_next_progress(run(s, replies, k), replies[k as int]);
        if x < progress(run(s, replies, k).phase) {
            lemma_passed_through(s, replies, k, x);
        } else {
            assert(!(run(s, replies, k).phase is Aborted) && progress(run(s, replies, k).phase) == x
                && replies[k as int] is Ok);
        }
    }
}

/// In a swap begun afresh, the push is asked for only after the allowance
/// was read and the pull was made, both without failure and in that order.
pub proof fn lemma_push_after_allowance_and_pull(s: Swap, replies: Seq<Reply>, i: nat)
    requires
        is_start(s),
        i <= replies.len(),
        run(s, replies, i).phase == SwapPhase::Awaiting(SwapStep::Push),
    ensures
        exists|k: nat, j: nat|
            k < j < i && #[trigger] run(s, replies, k).phase == SwapPhase::Awaiting(
                SwapStep::Allowance,
            ) && replies[k as int] is Ok && #[trigger] run(s, replies, j).phase
                == SwapPhase::Awaiting(SwapStep::Pull) && replies[j as int] is Ok,
{
    lemma_passed_through(s, replies, i, 4);
    let j = choose|j: nat|
        j < i && !(#[trigger] run(s, replies, j).phase is Aborted) && progress(
            run(s, replies, j).phase,
        ) == 4 && replies[j as int] is Ok;
    lemma_passed_through(s, replies, j, 2);
    let k = choose|k: nat|
        k < j && !(#[trigger] run(s, replies, k).phase is Aborted) && progress(
            run(s, replies, k).phase,
        ) == 2 && replies[k as int] is Ok;
    assert(run(s, replies, k).phase == SwapPhase::Awaiting(SwapStep::Allowance));
    assert(run(s, replies, j).phase == SwapPhase::Awaiting(SwapStep::Pull));
}

/// A failed call stops the swap for good: after it no call is asked for, so
/// a failed allowance read or pull is never followed by a push.
pub proof fn lemma_failure_stops(s: Swap, replies: Seq<Reply>, k: nat, i: nat)
    requires
        k < i <= replies.len(),
        run(s, replies, k).phase is Awaiting,
        replies[k as int] is Err,
    ensures
        run(s, replies, i).phase is Aborted,
        run(s, replies, i).pending is None,
    decreases i,
{
    if i == k + 1 {
    } else {
        lemma_failure_stops(s, replies, k, (i - 1) as nat);
    }
}

/// Once the destination is known to hold enough, the pull asks for the
/// allowance less both ledgers' fees; an allowance that the fees would eat
/// stops the swap before any transfer is asked for.
pub proof fn lemma_pull_pays_both_fees(s: Swap, reply: Reply)
    requires
        s.phase == SwapPhase::Awaiting(SwapStep::ToBalance),
        reply matches Ok(v) && v >= s.figures.allowance,
        s.figures.allowance > 0,
    ensures
        s.figures.allowance > s.from.fee + s.to.fee ==> next(s, reply).pending == Some(
            LedgerCall {
                ledger: s.from.canister,
                request: pull_request(
                    s.me,
                    s.caller,
                    (s.figures.allowance - s.from.fee - s.to.fee) as u128,
                    None,
                ),
            },
        ) && next(s, reply).figures.transferred_amount == s.figures.allowance - s.from.fee
            - s.to.fee,
        s.figures.allowance <= s.from.fee + s.to.fee ==> next(s, reply).phase is Aborted
            && next(s, reply).pending is None,
{
}

impl Swap {
    /// A swap of `caller`'s allowance on `from` for its value on `to`.
    pub fn new(from: Identity, to: Identity, me: Identity, caller: Identity) -> (r: Swap)
        ensures
            is_start(r),
            r.from == (Ledger { canister: from, fee: 0 }),
            r.to == (Ledger { canister: to, fee: 0 }),
            r.me == me,
            r.caller == caller,
            r.figures == (FromResult {
                allowance: 0,
                transferred_amount: 0,
                subaccount_balance: 0,
                to_balance: 0,
                to_transfer: 0,
            }),
    {
        let from = Ledger::new(from);
        let to = Ledger::new(to);
        let pending = Some(from.get_fee());
        Swap {
            from,
            to,
            me,
            caller,
            phase: SwapPhase::Awaiting(SwapStep::FromFee),
            figures: FromResult {
                allowance: 0,
                transferred_amount: 0,
                subaccount_balance: 0,
                to_balance: 0,
                to_transfer: 0,
            },
            pending,
        }
    }

    /// The ledger that the call of `step` goes to.
    fn ledger_for(&self, step: SwapStep) -> (r: Identity)
        ensures
            r == ledger_of(*self, step),
    {
        match step {
            SwapStep::ToFee | SwapStep::ToBalance | SwapStep::Push => self.to.canister,
            _ => self.from.canister,
        }
    }

    fn abort(&mut self, e: SwapError)
        ensures
            *final(self) == aborted(*old(self), e),
    {
        self.phase = SwapPhase::Aborted(e);
        self.pending = None;
    }

    fn wait_for(&mut self, step: SwapStep, call: LedgerCall)
        ensures
            *final(self) == awaiting(*old(self), step, call),
    {
        self.phase = SwapPhase::Awaiting(step);
        self.pending = Some(call);
    }

    /// Takes the ledger's reply to the pending call and moves the swap on:
    /// the next call becomes pending, or the swap finishes or stops.
    pub fn step(&mut self, reply: Reply)
        ensures
            *final(self) == next(*old(self), reply),
    {
        let step = match self.phase {
            SwapPhase::Awaiting(st) => st,
            _ => return ,
        };
        let v = match reply {
            Ok(v) => v,
            Err(error) => {
                let ledger = self.ledger_for(step);
                self.abort(SwapError::Ledger { step, ledger, error });
                return ;
            },
        };
        match step {
            SwapStep::FromFee => {
                self.from.set_fee(v);
                let call = self.to.get_fee();
                self.wait_for(SwapStep::ToFee, call);
            },
            SwapStep::ToFee => {
                self.to.set_fee(v);
                let call = self.from.get_allowance(self.me, self.caller);
                self.wait_for(SwapStep::Allowance, call);
            },
            SwapStep::Allowance => {
                self.figures.allowance = v;
                let call = self.to.get_balance(self.me, None);
                self.wait_for(SwapStep::ToBalance, call);
            },
            SwapStep::ToBalance => {
                let a = self.figures.allowance;
                if v < a {
                    self.abort(SwapError::Underfunded { needed: a, available: v });
                } else if a == 0 {
                    // A zero allowance goes to the ledger as it is, and the
                    // ledger's answer decides.
                    self.figures.to_balance = v;
                    self.figures.transferred_amount = 0;
                    let call = self.from.pull_into_slot(self.me, self.caller, 0, None);
                    self.wait_for(SwapStep::Pull, call);
                } else {
                    match self.from.from_ledger_to_canister_transaction(
                        self.me,
                        self.caller,
                        a,
                        self.to.fee,
                    ) {
                        Ok(call) => {
                            self.figures.to_balance = v;
                            self.figures.transferred_amount = a - self.from.fee - self.to.fee;
                            self.wait_for(SwapStep::Pull, call);
                        },
                        Err(detail) => {
                            self.abort(SwapError::Fees { step: SwapStep::Pull, detail });
                        },
                    }
                }
            },
            SwapStep::Pull => {
                let call = self.from.get_balance(self.me, Some(self.caller));
                self.wait_for(SwapStep::SlotBalance, call);
            },
            SwapStep::SlotBalance => {
                match self.to.from_canister_to_caller_transaction(self.caller, v) {
                    Ok(call) => {
                        self.figures.subaccount_balance = v;
                        self.figures.to_transfer = v - self.to.fee;
                        self.wait_for(SwapStep::Push, call);
                    },
                    Err(detail) => {
                        self.abort(SwapError::Fees { step: SwapStep::Push, detail });
                    },
                }
            },
            SwapStep::Push => {
                let b = self.figures.subaccount_balance;
                match self.from.internal_transaction(self.me, self.caller, b) {
                    Ok(call) => {
                        self.wait_for(SwapStep::Sweep, call);
                    },
                    Err(detail) => {
                        self.abort(SwapError::Fees { step: SwapStep::Sweep, detail });
                    },
                }
            },
            SwapStep::Sweep => {
                self.phase = SwapPhase::Done;
                self.pending = None;
            },
        }
    }

    /// How the swap ended: its figures once done, its error once stopped,
    /// `None` while a reply is still awaited.
    pub fn finish(self) -> (r: Option<Result<FromResult, SwapError>>)
        ensures
            r == match self.phase {
                SwapPhase::Awaiting(_) => None,
                SwapPhase::Done => Some(Ok::<FromResult, SwapError>(self.figures)),
                SwapPhase::Aborted(e) => Some(Err::<FromResult, SwapError>(e)),
            },
    {
        match self.phase {
            SwapPhase::Awaiting(_) => None,
            SwapPhase::Done => Some(Ok(self.figures)),
            SwapPhase::Aborted(e) => Some(Err(e)),
        }
    }
}

} // verus!
