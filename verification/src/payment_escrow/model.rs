//! The escrow as a state machine over mathematical values: its storage, the
//! calls it accepts, and what each call returns, stores and asks of the host.

use vstd::prelude::*;
use crate::host::{Address, EffectView, EventView};
use crate::payment_escrow::errors::Error;
use crate::payment_escrow::types::{EscrowStatus, EscrowView, MilestonePayment};

verus! {

/// A call that changes the escrow.
pub enum EscrowCall {
    Initialize {
        shipment_id: Seq<u8>,
        payer: Address,
        payee: Address,
        token: Address,
        total_amount: i128,
        milestone_amounts: Seq<i128>,
        dispute_resolver: Address,
    },
    Deposit { amount: i128 },
    ReleaseMilestone { caller: Address, milestone_index: u32 },
    ReleaseAll { caller: Address },
    RaiseDispute { caller: Address },
    ResolveDispute { resolver: Address, release_to_payee: bool },
}

/// What a call returns, the storage after it (the escrow, once set up), and
/// what it asked of the host.
pub struct EscrowTransition {
    pub result: Result<(), Error>,
    pub state: Option<EscrowView>,
    pub effects: Seq<EffectView>,
}

/// The call is refused with `error` after asking `effects` of the host; the
/// storage stays as it was.
pub open spec fn refused(m: Option<EscrowView>, error: Error, effects: Seq<EffectView>) -> EscrowTransition {
    EscrowTransition { result: Err(error), state: m, effects }
}

/// The sum of `amounts`.
pub open spec fn sum_amounts(amounts: Seq<i128>) -> int
    decreases amounts.len(),
{
    if amounts.len() == 0 {
        0
    } else {
        sum_amounts(amounts.drop_last()) + amounts.last()
    }
}

/// Adding up `amounts` from the left, up to the first amount that is not
/// positive, stays within `i128`.
pub open spec fn positive_prefix_sums_fit(amounts: Seq<i128>) -> bool {
    forall|k: int|
        #![trigger amounts.take(k)]
        0 < k <= amounts.len() && (forall|j: int| 0 <= j < k ==> amounts[j] > 0) ==> sum_amounts(
            amounts.take(k),
        ) <= i128::MAX
}

/// The sum of the amounts of `payments`.
pub open spec fn total_of(payments: Seq<MilestonePayment>) -> int
    decreases payments.len(),
{
    if payments.len() == 0 {
        0
    } else {
        total_of(payments.drop_last()) + payments.last().amount_stroops
    }
}

/// The sum of the amounts of the released payments among `payments`.
pub open spec fn released_total(payments: Seq<MilestonePayment>) -> int
    decreases payments.len(),
{
    if payments.len() == 0 {
        0
    } else {
        released_total(payments.drop_last()) + if payments.last().released {
            payments.last().amount_stroops as int
        } else {
            0
        }
    }
}

/// The payment of `amount` before it is released.
pub open spec fn unreleased_payment(amount: i128) -> MilestonePayment {
    MilestonePayment { amount_stroops: amount, released: false, released_at: 0 }
}

/// Every payment of `payments` is released.
pub open spec fn all_released(payments: Seq<MilestonePayment>) -> bool {
    forall|i: int| 0 <= i < payments.len() ==> #[trigger] payments[i].released
}

/// `p`, released at `now` unless it was released before.
pub open spec fn release(p: MilestonePayment, now: u64) -> MilestonePayment {
    if p.released {
        p
    } else {
        MilestonePayment { released: true, released_at: now, ..p }
    }
}

/// `payments` with every one released, those released before unchanged.
pub open spec fn release_every(payments: Seq<MilestonePayment>, now: u64) -> Seq<MilestonePayment> {
    payments.map_values(|p: MilestonePayment| release(p, now))
}

/// The transfers of `token` from `from` to `to` that pay out the unreleased
/// payments of `payments`, in order.
pub open spec fn payouts(payments: Seq<MilestonePayment>, token: Address, from: Address, to: Address) -> Seq<
    EffectView,
>
    decreases payments.len(),
{
    if payments.len() == 0 {
        Seq::empty()
    } else {
        payouts(payments.drop_last(), token, from, to) + if payments.last().released {
            Seq::<EffectView>::empty()
        } else {
            seq![
                EffectView::Transfer {
                    token,
                    from,
                    to,
                    amount: payments.last().amount_stroops,
                },
            ]
        }
    }
}

/// The transfers of `token` from `from` to `to` that pay out the unreleased
/// payments of `payments`, in order, each followed by the `RELEASED` event
/// that announces it (with the caller, the milestone's index and amount).
pub open spec fn announced_payouts(
    payments: Seq<MilestonePayment>,
    token: Address,
    from: Address,
    to: Address,
    shipment_id: Seq<u8>,
    caller: Address,
) -> Seq<EffectView>
    decreases payments.len(),
{
    if payments.len() == 0 {
        Seq::empty()
    } else {
        announced_payouts(payments.drop_last(), token, from, to, shipment_id, caller)
            + if payments.last().released {
            Seq::<EffectView>::empty()
        } else {
            seq![
                EffectView::Transfer {
                    token,
                    from,
                    to,
                    amount: payments.last().amount_stroops,
                },
                EffectView::Publish(
                    EventView::MilestoneReleased {
                        shipment_id,
                        caller,
                        index: (payments.len() - 1) as u32,
                        amount: payments.last().amount_stroops,
                    },
                ),
            ]
        }
    }
}

/// The escrow can be released from (per milestone, in full, or by dispute).
pub open spec fn is_releasable(status: EscrowStatus) -> bool {
    status == EscrowStatus::Active || status == EscrowStatus::PartiallyReleased
}

/// `initialize`: sets up the escrow, once, with milestone amounts that are
/// positive and add up to the positive total.
pub open spec fn initialize_step(
    m: Option<EscrowView>,
    now: u64,
    shipment_id: Seq<u8>,
    payer: Address,
    payee: Address,
    token: Address,
    total_amount: i128,
    milestone_amounts: Seq<i128>,
    dispute_resolver: Address,
) -> EscrowTransition {
    if m is Some {
        refused(m, Error::AlreadyInitialized, Seq::empty())
    } else if total_amount <= 0 {
        refused(m, Error::ZeroAmount, Seq::empty())
    } else if exists|i: int| 0 <= i < milestone_amounts.len() && milestone_amounts[i] <= 0 {
        refused(m, Error::ZeroAmount, Seq::empty())
    } else if sum_amounts(milestone_amounts) != total_amount {
        refused(m, Error::InvalidMilestoneAmounts, Seq::empty())
    } else {
        EscrowTransition {
            result: Ok(()),
            state: Some(
                EscrowView {
                    shipment_id,
                    payer,
                    payee,
                    token,
                    total_amount,
                    deposited_amount: 0,
                    milestone_payments: milestone_amounts.map_values(
                        |a: i128| unreleased_payment(a),
                    ),
                    status: EscrowStatus::Pending,
                    dispute_resolver,
                    created_at: now,
                    updated_at: now,
                },
            ),
            effects: seq![EffectView::RequireAuth(payer)],
        }
    }
}

/// `deposit`: the payer moves `amount` into the contract while the escrow is
/// pending or active and short of its total.
pub open spec fn deposit_step(
    m: Option<EscrowView>,
    now: u64,
    contract: Address,
    amount: i128,
) -> EscrowTransition {
    match m {
        None => refused(m, Error::NotInitialized, Seq::empty()),
        Some(e) => if !(e.status == EscrowStatus::Pending || e.status == EscrowStatus::Active) {
            refused(m, Error::EscrowNotActive, Seq::empty())
        } else if amount <= 0 {
            refused(m, Error::ZeroAmount, Seq::empty())
        } else if e.deposited_amount >= e.total_amount {
            refused(m, Error::AlreadyFullyFunded, Seq::empty())
        } else {
            EscrowTransition {
                result: Ok(()),
                state: Some(
                    EscrowView {
                        deposited_amount: (e.deposited_amount + amount) as i128,
                        status: EscrowStatus::Active,
                        updated_at: now,
                        ..e
                    },
                ),
                effects: seq![
                    EffectView::RequireAuth(e.payer),
                    EffectView::Transfer { token: e.token, from: e.payer, to: contract, amount },
                    EffectView::Publish(
                        EventView::EscrowFunded { shipment_id: e.shipment_id, payer: e.payer, amount },
                    ),
                ],
            }
        },
    }
}

/// `release_milestone`: the payer or the dispute resolver pays one milestone
/// to the payee, once.
pub open spec fn release_milestone_step(
    m: Option<EscrowView>,
    now: u64,
    contract: Address,
    caller: Address,
    milestone_index: u32,
) -> EscrowTransition {
    match m {
        None => refused(m, Error::NotInitialized, Seq::empty()),
        Some(e) => {
            let auth = seq![EffectView::RequireAuth(caller)];
            if !(caller@ == e.payer@ || caller@ == e.dispute_resolver@) {
                refused(m, Error::Unauthorized, auth)
            } else if !is_releasable(e.status) {
                refused(m, Error::EscrowNotActive, auth)
            } else if milestone_index >= e.milestone_payments.len() {
                refused(m, Error::MilestoneNotFound, auth)
            } else if e.milestone_payments[milestone_index as int].released {
                refused(m, Error::MilestoneAlreadyReleased, auth)
            } else {
                let p = e.milestone_payments[milestone_index as int];
                let payments = e.milestone_payments.update(
                    milestone_index as int,
                    MilestonePayment { released: true, released_at: now, ..p },
                );
                EscrowTransition {
                    result: Ok(()),
                    state: Some(
                        EscrowView {
                            milestone_payments: payments,
                            updated_at: now,
                            status: if all_released(payments) {
                                EscrowStatus::FullyReleased
                            } else {
                                EscrowStatus::PartiallyReleased
                            },
                            ..e
                        },
                    ),
                    effects: auth + seq![
                        EffectView::Transfer {
                            token: e.token,
                            from: contract,
                            to: e.payee,
                            amount: p.amount_stroops,
                        },
                        EffectView::Publish(
                            EventView::MilestoneReleased {
                                shipment_id: e.shipment_id,
                                caller,
                                index: milestone_index,
                                amount: p.amount_stroops,
                            },
                        ),
                    ],
                }
            }
        },
    }
}

/// `release_all`: the payer or the dispute resolver pays every milestone not
/// paid yet to the payee, announcing each payment with a `RELEASED` event.
pub open spec fn release_all_step(
    m: Option<EscrowView>,
    now: u64,
    contract: Address,
    caller: Address,
) -> EscrowTransition {
    match m {
        None => refused(m, Error::NotInitialized, Seq::empty()),
        Some(e) => {
            let auth = seq![EffectView::RequireAuth(caller)];
            if !(caller@ == e.payer@ || caller@ == e.dispute_resolver@) {
                refused(m, Error::Unauthorized, auth)
            } else if !is_releasable(e.status) {
                refused(m, Error::EscrowNotActive, auth)
            } else {
                EscrowTransition {
                    result: Ok(()),
                    state: Some(
                        EscrowView {
                            milestone_payments: release_every(e.milestone_payments, now),
                            status: EscrowStatus::FullyReleased,
                            updated_at: now,
                            ..e
                        },
                    ),
                    effects: auth + announced_payouts(
                        e.milestone_payments,
                        e.token,
                        contract,
                        e.payee,
                        e.shipment_id,
                        caller,
                    ),
                }
            }
        },
    }
}

/// `raise_dispute`: the payer or the payee freezes an escrow that is being
/// released.
pub open spec fn raise_dispute_step(m: Option<EscrowView>, now: u64, caller: Address) -> EscrowTransition {
    match m {
        None => refused(m, Error::NotInitialized, Seq::empty()),
        Some(e) => {
            let auth = seq![EffectView::RequireAuth(caller)];
            if !(caller@ == e.payer@ || caller@ == e.payee@) {
                refused(m, Error::Unauthorized, auth)
            } else if !is_releasable(e.status) {
                refused(m, Error::EscrowNotActive, auth)
            } else {
                EscrowTransition {
                    result: Ok(()),
                    state: Some(EscrowView { status: EscrowStatus::Disputed, updated_at: now, ..e }),
                    effects: auth.push(
                        EffectView::Publish(
                            EventView::DisputeRaised { shipment_id: e.shipment_id, caller },
                        ),
                    ),
                }
            }
        },
    }
}

/// `resolve_dispute`: the dispute resolver sends every payment not made yet
/// to the payee, or back to the payer.
pub open spec fn resolve_dispute_step(
    m: Option<EscrowView>,
    now: u64,
    contract: Address,
    resolver: Address,
    release_to_payee: bool,
) -> EscrowTransition {
    match m {
        None => refused(m, Error::NotInitialized, Seq::empty()),
        Some(e) => {
            let auth = seq![EffectView::RequireAuth(resolver)];
            if resolver@ != e.dispute_resolver@ {
                refused(m, Error::Unauthorized, auth)
            } else if e.status != EscrowStatus::Disputed {
                refused(m, Error::DisputeNotActive, auth)
            } else {
                let recipient = if release_to_payee {
                    e.payee
                } else {
                    e.payer
                };
                EscrowTransition {
                    result: Ok(()),
                    state: Some(
                        EscrowView {
                            milestone_payments: release_every(e.milestone_payments, now),
                            status: if release_to_payee {
                                EscrowStatus::FullyReleased
                            } else {
                                EscrowStatus::Refunded
                            },
                            updated_at: now,
                            ..e
                        },
                    ),
                    effects: auth + payouts(e.milestone_payments, e.token, contract, recipient)
                        + seq![
                        EffectView::Publish(
                            EventView::DisputeResolved {
                                shipment_id: e.shipment_id,
                                resolver,
                                to_payee: release_to_payee,
                            },
                        ),
                    ],
                }
            }
        },
    }
}

/// What `call` does to the escrow storage `m`, in the ledger closed at `now`,
/// for the escrow contract at `contract`.
pub open spec fn escrow_step(
    m: Option<EscrowView>,
    now: u64,
    contract: Address,
    call: EscrowCall,
) -> EscrowTransition {
    match call {
        EscrowCall::Initialize {
            shipment_id,
            payer,
            payee,
            token,
            total_amount,
            milestone_amounts,
            dispute_resolver,
        } => initialize_step(
            m,
            now,
            shipment_id,
            payer,
            payee,
            token,
            total_amount,
            milestone_amounts,
            dispute_resolver,
        ),
        EscrowCall::Deposit { amount } => deposit_step(m, now, contract, amount),
        EscrowCall::ReleaseMilestone { caller, milestone_index } => release_milestone_step(
            m,
            now,
            contract,
            caller,
            milestone_index,
        ),
        EscrowCall::ReleaseAll { caller } => release_all_step(m, now, contract, caller),
        EscrowCall::RaiseDispute { caller } => raise_dispute_step(m, now, caller),
        EscrowCall::ResolveDispute { resolver, release_to_payee } => resolve_dispute_step(
            m,
            now,
            contract,
            resolver,
            release_to_payee,
        ),
    }
}

} // verus!
