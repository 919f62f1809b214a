//! What each escrow call does, stated directly over its inputs and the
//! escrow it finds: when it succeeds and what it stores then, and which error
//! it gives otherwise, with nothing stored and no funds moved.

use vstd::prelude::*;
use crate::host::{Address, EffectView, EventView};
use crate::payment_escrow::errors::Error;
use crate::payment_escrow::laws::{
    lemma_announced_payouts, lemma_release_every, lemma_sent_from_concat, received_by, sent_from,
};
use crate::payment_escrow::model::{announced_payouts, escrow_step, payouts, released_total, sum_amounts, total_of, EscrowCall};
use crate::payment_escrow::types::{EscrowStatus, EscrowView, MilestonePayment};

verus! {

/// No effect of `effects` is a transfer.
pub open spec fn moves_no_funds(effects: Seq<EffectView>) -> bool {
    forall|k: int| 0 <= k < effects.len() ==> !(#[trigger] effects[k] is Transfer)
}

/// `after` is `before` with every payment released: each one released before
/// is kept as it was, each other one is released at `now` with its amount.
pub open spec fn releases_every_payment(
    before: Seq<MilestonePayment>,
    after: Seq<MilestonePayment>,
    now: u64,
) -> bool {
    &&& after.len() == before.len()
    &&& forall|k: int|
        0 <= k < before.len() ==> {
            &&& (#[trigger] after[k]).released
            &&& after[k].amount_stroops == before[k].amount_stroops
            &&& (before[k].released ==> after[k] == before[k])
            &&& (!before[k].released ==> after[k].released_at == now)
        }
}

/// `effect` is part of paying out unreleased payments of `p` in `token` from
/// `from` to `to`: a transfer between those two, or the `RELEASED` event of
/// `shipment_id` and `caller` that names an unreleased payment of `p` by its
/// index and amount.
pub open spec fn pays_out_of(
    effect: EffectView,
    p: Seq<MilestonePayment>,
    token: Address,
    from: Address,
    to: Address,
    shipment_id: Seq<u8>,
    caller: Address,
) -> bool {
    match effect {
        EffectView::Transfer { token: tk, from: f, to: r, .. } => tk == token && f == from && r == to,
        EffectView::Publish(EventView::MilestoneReleased { shipment_id: sid, caller: c, index, amount }) => {
            &&& sid == shipment_id
            &&& c == caller
            &&& index < p.len()
            &&& !p[index as int].released
            &&& amount == p[index as int].amount_stroops
        },
        _ => false,
    }
}

proof fn lemma_announced_payouts_shape(
    p: Seq<MilestonePayment>,
    token: Address,
    from: Address,
    to: Address,
    shipment_id: Seq<u8>,
    caller: Address,
)
    requires
        p.len() <= u32::MAX,
    ensures
        ({
            let a = announced_payouts(p, token, from, to, shipment_id, caller);
            forall|k: int|
                0 <= k < a.len() ==> pays_out_of(#[trigger] a[k], p, token, from, to, shipment_id, caller)
        }),
    decreases p.len(),
{
    if p.len() > 0 {
        let q = p.drop_last();
        lemma_announced_payouts_shape(q, token, from, to, shipment_id, caller);
        let rest = announced_payouts(q, token, from, to, shipment_id, caller);
        let a = announced_payouts(p, token, from, to, shipment_id, caller);
        assert forall|k: int| 0 <= k < a.len() implies pays_out_of(
            #[trigger] a[k],
            p,
            token,
            from,
            to,
            shipment_id,
            caller,
        ) by {
            if k < rest.len() {
                assert(a[k] == rest[k]);
                assert(pays_out_of(rest[k], q, token, from, to, shipment_id, caller));
                if let EffectView::Publish(EventView::MilestoneReleased { index, .. }) = rest[k] {
                    assert(p[index as int] == q[index as int]);
                }
            }
        }
    }
}

/// `effect` is a transfer in `token` from `from` to `to`.
pub open spec fn is_transfer_of(effect: EffectView, token: Address, from: Address, to: Address) -> bool {
    match effect {
        EffectView::Transfer { token: tk, from: f, to: r, .. } => tk == token && f == from && r == to,
        _ => false,
    }
}

proof fn lemma_payouts_shape(p: Seq<MilestonePayment>, token: Address, from: Address, to: Address)
    ensures
        forall|k: int|
            0 <= k < payouts(p, token, from, to).len() ==> is_transfer_of(#[trigger] payouts(p, token, from, to)[k], token, from, to),
    decreases p.len(),
{
    if p.len() > 0 {
        lemma_payouts_shape(p.drop_last(), token, from, to);
        let rest = payouts(p.drop_last(), token, from, to);
        let all = payouts(p, token, from, to);
        assert forall|k: int| 0 <= k < all.len() implies is_transfer_of(#[trigger] all[k], token, from, to) by {
            if k < rest.len() {
                assert(all[k] == rest[k]);
            }
        }
    }
}

/// Setting up an escrow with a positive total and positive milestone amounts
/// that add up to it succeeds on empty storage: the escrow is pending, holds
/// nothing yet, keeps the parties, the token and the total it was given, and
/// has one unreleased payment per amount, in order.
pub proof fn law_initialize_sets_up(
    now: u64,
    contract: Address,
    shipment_id: Seq<u8>,
    payer: Address,
    payee: Address,
    token: Address,
    total_amount: i128,
    milestone_amounts: Seq<i128>,
    dispute_resolver: Address,
)
    requires
        total_amount > 0,
        forall|k: int| 0 <= k < milestone_amounts.len() ==> #[trigger] milestone_amounts[k] > 0,
        sum_amounts(milestone_amounts) == total_amount,
    ensures
        ({
            let t = escrow_step(
                None,
                now,
                contract,
                EscrowCall::Initialize {
                    shipment_id,
                    payer,
                    payee,
                    token,
                    total_amount,
                    milestone_amounts,
                    dispute_resolver,
                },
            );
            let n = t.state.unwrap();
            &&& t.result == Ok::<(), Error>(())
            &&& t.state is Some
            &&& n.shipment_id == shipment_id
            &&& n.payer == payer
            &&& n.payee == payee
            &&& n.token == token
            &&& n.dispute_resolver == dispute_resolver
            &&& n.total_amount == total_amount
            &&& n.deposited_amount == 0
            &&& n.status == EscrowStatus::Pending
            &&& n.created_at == now
            &&& n.updated_at == now
            &&& n.milestone_payments.len() == milestone_amounts.len()
            &&& forall|k: int|
                0 <= k < milestone_amounts.len() ==> #[trigger] n.milestone_payments[k]
                    == MilestonePayment {
                    amount_stroops: milestone_amounts[k],
                    released: false,
                    released_at: 0,
                }
            &&& t.effects == seq![EffectView::RequireAuth(payer)]
        }),
{
}

/// Setting up an escrow is refused when one is set up already
/// (`AlreadyInitialized`), when the total or a milestone amount is not
/// positive (`ZeroAmount`), and when the amounts do not add up to the total
/// (`InvalidMilestoneAmounts`); a refused set-up stores nothing and asks
/// nothing of the host.
pub proof fn law_initialize_refusals(
    m: Option<EscrowView>,
    now: u64,
    contract: Address,
    shipment_id: Seq<u8>,
    payer: Address,
    payee: Address,
    token: Address,
    total_amount: i128,
    milestone_amounts: Seq<i128>,
    dispute_resolver: Address,
)
    ensures
        ({
            let t = escrow_step(
                m,
                now,
                contract,
                EscrowCall::Initialize {
                    shipment_id,
                    payer,
                    payee,
                    token,
                    total_amount,
                    milestone_amounts,
                    dispute_resolver,
                },
            );
            let amounts_positive = forall|k: int|
                0 <= k < milestone_amounts.len() ==> #[trigger] milestone_amounts[k] > 0;
            &&& m is Some ==> t.result == Err::<(), Error>(Error::AlreadyInitialized)
            &&& m is None && total_amount <= 0 ==> t.result == Err::<(), Error>(Error::ZeroAmount)
            &&& m is None && !amounts_positive ==> t.result == Err::<(), Error>(Error::ZeroAmount)
            &&& m is None && total_amount > 0 && amounts_positive && sum_amounts(milestone_amounts)
                != total_amount ==> t.result == Err::<(), Error>(Error::InvalidMilestoneAmounts)
            &&& t.result is Err ==> t.state == m && t.effects == Seq::<EffectView>::empty()
        }),
{
}

/// A deposit of a positive amount into a pending or active escrow that is
/// short of its total succeeds: the payer's funds go to the contract, the
/// deposited amount grows by exactly that amount, the escrow is active, and
/// nothing else of it changes.
pub proof fn law_deposit_funds(e: EscrowView, now: u64, contract: Address, amount: i128)
    requires
        e.status == EscrowStatus::Pending || e.status == EscrowStatus::Active,
        amount > 0,
        e.deposited_amount < e.total_amount,
        e.deposited_amount + amount <= i128::MAX,
    ensures
        ({
            let t = escrow_step(Some(e), now, contract, EscrowCall::Deposit { amount });
            let n = t.state.unwrap();
            &&& t.result == Ok::<(), Error>(())
            &&& t.state is Some
            &&& n.deposited_amount == e.deposited_amount + amount
            &&& n.status == EscrowStatus::Active
            &&& n == EscrowView {
                deposited_amount: n.deposited_amount,
                status: EscrowStatus::Active,
                updated_at: now,
                ..e
            }
            &&& t.effects == seq![
                EffectView::RequireAuth(e.payer),
                EffectView::Transfer { token: e.token, from: e.payer, to: contract, amount },
                EffectView::Publish(
                    EventView::EscrowFunded { shipment_id: e.shipment_id, payer: e.payer, amount },
                ),
            ]
        }),
{
}

/// A deposit into an escrow whose deposited amount has reached its total is
/// refused (with `AlreadyFullyFunded`, unless the escrow is not pending or
/// active or the amount is not positive), and moves nothing: the escrow stays
/// as it was and no transfer is asked for.
pub proof fn law_deposit_on_funded_escrow_is_refused(e: EscrowView, now: u64, contract: Address, amount: i128)
    requires
        e.deposited_amount >= e.total_amount,
    ensures
        ({
            let t = escrow_step(Some(e), now, contract, EscrowCall::Deposit { amount });
            &&& t.result is Err
            &&& (e.status == EscrowStatus::Pending || e.status == EscrowStatus::Active) && amount > 0
                ==> t.result == Err::<(), Error>(Error::AlreadyFullyFunded)
            &&& t.state == Some(e)
            &&& t.effects == Seq::<EffectView>::empty()
        }),
{
}

/// A deposit is refused when no escrow is set up (`NotInitialized`), when it
/// is neither pending nor active (`EscrowNotActive`), when the amount is not
/// positive (`ZeroAmount`), and when the escrow already holds its total
/// (`AlreadyFullyFunded`); a refused deposit stores nothing and asks nothing
/// of the host.
pub proof fn law_deposit_refusals(m: Option<EscrowView>, now: u64, contract: Address, amount: i128)
    ensures
        ({
            let t = escrow_step(m, now, contract, EscrowCall::Deposit { amount });
            let e = m.unwrap();
            &&& m is None ==> t.result == Err::<(), Error>(Error::NotInitialized)
            &&& m is Some && !(e.status == EscrowStatus::Pending || e.status
                == EscrowStatus::Active) ==> t.result == Err::<(), Error>(Error::EscrowNotActive)
            &&& m is Some && (e.status == EscrowStatus::Pending || e.status
                == EscrowStatus::Active) && amount <= 0 ==> t.result == Err::<(), Error>(
                Error::ZeroAmount,
            )
            &&& m is Some && (e.status == EscrowStatus::Pending || e.status
                == EscrowStatus::Active) && amount > 0 && e.deposited_amount >= e.total_amount
                ==> t.result == Err::<(), Error>(Error::AlreadyFullyFunded)
            &&& t.result is Err ==> t.state == m && t.effects == Seq::<EffectView>::empty()
        }),
{
}

/// Releasing an unpaid milestone of an active or partly released escrow, by
/// the payer or the dispute resolver, succeeds: the contract pays that
/// milestone's amount to the payee, that payment alone is marked released
/// now, every other payment stays as it was, and the escrow is fully
/// released exactly when no payment is left unpaid, partly released
/// otherwise.
pub proof fn law_release_milestone_pays_one(
    e: EscrowView,
    now: u64,
    contract: Address,
    caller: Address,
    milestone_index: u32,
)
    requires
        caller@ == e.payer@ || caller@ == e.dispute_resolver@,
        e.status == EscrowStatus::Active || e.status == EscrowStatus::PartiallyReleased,
        milestone_index < e.milestone_payments.len(),
        !e.milestone_payments[milestone_index as int].released,
    ensures
        ({
            let t = escrow_step(
                Some(e),
                now,
                contract,
                EscrowCall::ReleaseMilestone { caller, milestone_index },
            );
            let n = t.state.unwrap();
            let p = e.milestone_payments;
            let q = n.milestone_payments;
            let i = milestone_index as int;
            &&& t.result == Ok::<(), Error>(())
            &&& t.state is Some
            &&& q.len() == p.len()
            &&& q[i] == MilestonePayment {
                amount_stroops: p[i].amount_stroops,
                released: true,
                released_at: now,
            }
            &&& forall|k: int| 0 <= k < p.len() && k != i ==> #[trigger] q[k] == p[k]
            &&& (n.status == EscrowStatus::FullyReleased) == (forall|k: int|
                0 <= k < q.len() ==> #[trigger] q[k].released)
            &&& (n.status == EscrowStatus::FullyReleased || n.status
                == EscrowStatus::PartiallyReleased)
            &&& n == EscrowView { milestone_payments: q, status: n.status, updated_at: now, ..e }
            &&& t.effects == seq![
                EffectView::RequireAuth(caller),
                EffectView::Transfer {
                    token: e.token,
                    from: contract,
                    to: e.payee,
                    amount: p[i].amount_stroops,
                },
                EffectView::Publish(
                    EventView::MilestoneReleased {
                        shipment_id: e.shipment_id,
                        caller,
                        index: milestone_index,
                        amount: p[i].amount_stroops,
                    },
                ),
            ]
        }),
{
}

/// Releasing a milestone is refused when no escrow is set up
/// (`NotInitialized`), when the caller is neither the payer nor the dispute
/// resolver (`Unauthorized`), when the escrow is neither active nor partly
/// released (`EscrowNotActive`), when there is no such milestone
/// (`MilestoneNotFound`), and when it was paid before
/// (`MilestoneAlreadyReleased`); a refused release stores nothing and moves
/// no funds.
pub proof fn law_release_milestone_refusals(
    m: Option<EscrowView>,
    now: u64,
    contract: Address,
    caller: Address,
    milestone_index: u32,
)
    ensures
        ({
            let t = escrow_step(
                m,
                now,
                contract,
                EscrowCall::ReleaseMilestone { caller, milestone_index },
            );
            let e = m.unwrap();
            &&& m is None ==> t.result == Err::<(), Error>(Error::NotInitialized)
            &&& m is Some && !(caller@ == e.payer@ || caller@ == e.dispute_resolver@)
                ==> t.result == Err::<(), Error>(Error::Unauthorized)
            &&& m is Some && (caller@ == e.payer@ || caller@ == e.dispute_resolver@) && !(
            e.status == EscrowStatus::Active || e.status == EscrowStatus::PartiallyReleased)
                ==> t.result == Err::<(), Error>(Error::EscrowNotActive)
            &&& m is Some && (caller@ == e.payer@ || caller@ == e.dispute_resolver@) && (
            e.status == EscrowStatus::Active || e.status == EscrowStatus::PartiallyReleased)
                && milestone_index >= e.milestone_payments.len() ==> t.result == Err::<(), Error>(
                Error::MilestoneNotFound,
            )
            &&& m is Some && (caller@ == e.payer@ || caller@ == e.dispute_resolver@) && (
            e.status == EscrowStatus::Active || e.status == EscrowStatus::PartiallyReleased)
                && milestone_index < e.milestone_payments.len()
                && e.milestone_payments[milestone_index as int].released ==> t.result == Err::<
                (),
                Error,
            >(Error::MilestoneAlreadyReleased)
            &&& t.result is Err ==> t.state == m && moves_no_funds(t.effects)
            &&& m is None ==> t.effects == Seq::<EffectView>::empty()
            &&& m is Some && t.result is Err ==> t.effects == seq![EffectView::RequireAuth(caller)]
        }),
{
}

/// Releasing everything that is left, by the payer or the dispute resolver
/// of an escrow that is active or partly released, succeeds whether or not
/// any milestone was paid before: every payment ends up released (those paid
/// before as they were, the others now), the escrow is fully released with
/// nothing else of it changed, and the contract sends the payee exactly the
/// amount that was not paid yet.
pub proof fn law_release_all_pays_everything(e: EscrowView, now: u64, contract: Address, caller: Address)
    requires
        caller@ == e.payer@ || caller@ == e.dispute_resolver@,
        e.status == EscrowStatus::Active || e.status == EscrowStatus::PartiallyReleased,
    ensures
        ({
            let t = escrow_step(Some(e), now, contract, EscrowCall::ReleaseAll { caller });
            let n = t.state.unwrap();
            let p = e.milestone_payments;
            &&& t.result == Ok::<(), Error>(())
            &&& t.state is Some
            &&& n.status == EscrowStatus::FullyReleased
            &&& releases_every_payment(p, n.milestone_payments, now)
            &&& n == EscrowView {
                milestone_payments: n.milestone_payments,
                status: EscrowStatus::FullyReleased,
                updated_at: now,
                ..e
            }
            &&& sent_from(t.effects, contract@) == total_of(p) - released_total(p)
            &&& received_by(t.effects, e.payee@) == total_of(p) - released_total(p)
            &&& t.effects[0] == EffectView::RequireAuth(caller)
            &&& p.len() <= u32::MAX ==> forall|k: int|
                1 <= k < t.effects.len() ==> pays_out_of(
                    #[trigger] t.effects[k],
                    p,
                    e.token,
                    contract,
                    e.payee,
                    e.shipment_id,
                    caller,
                )
        }),
{
    let p = e.milestone_payments;
    let a = seq![EffectView::RequireAuth(caller)];
    let po = announced_payouts(
        p,
        e.token,
        contract,
        e.payee,
        e.shipment_id,
        caller,
    );
    reveal_with_fuel(sent_from, 2);
    reveal_with_fuel(received_by, 2);
    lemma_sent_from_concat(a, po, contract@);
    lemma_sent_from_concat(a, po, e.payee@);
    lemma_announced_payouts(p, e.token, contract, e.payee, e.shipment_id, caller, contract@);
    lemma_announced_payouts(p, e.token, contract, e.payee, e.shipment_id, caller, e.payee@);
    lemma_release_every(p, now, e.token, contract, e.payee, contract@);
    lemma_release_every(p, now, e.token, contract, e.payee, e.payee@);
    if p.len() <= u32::MAX {
        lemma_announced_payouts_shape(p, e.token, contract, e.payee, e.shipment_id, caller);
        let effects = a + po;
        assert forall|k: int| 1 <= k < effects.len() implies pays_out_of(
            #[trigger] effects[k],
            p,
            e.token,
            contract,
            e.payee,
            e.shipment_id,
            caller,
        ) by {
            assert(effects[k] == po[k - 1]);
        }
    }
}

/// Releasing everything is refused when no escrow is set up
/// (`NotInitialized`), when the caller is neither the payer nor the dispute
/// resolver (`Unauthorized`), and when the escrow is neither active nor
/// partly released (`EscrowNotActive`); a refused release stores nothing and
/// moves no funds.
pub proof fn law_release_all_refusals(m: Option<EscrowView>, now: u64, contract: Address, caller: Address)
    ensures
        ({
            let t = escrow_step(m, now, contract, EscrowCall::ReleaseAll { caller });
            let e = m.unwrap();
            &&& m is None ==> t.result == Err::<(), Error>(Error::NotInitialized)
            &&& m is Some && !(caller@ == e.payer@ || caller@ == e.dispute_resolver@)
                ==> t.result == Err::<(), Error>(Error::Unauthorized)
            &&& m is Some && (caller@ == e.payer@ || caller@ == e.dispute_resolver@) && !(
            e.status == EscrowStatus::Active || e.status == EscrowStatus::PartiallyReleased)
                ==> t.result == Err::<(), Error>(Error::EscrowNotActive)
            &&& t.result is Err ==> t.state == m && moves_no_funds(t.effects)
            &&& m is None ==> t.effects == Seq::<EffectView>::empty()
            &&& m is Some && t.result is Err ==> t.effects == seq![EffectView::RequireAuth(caller)]
        }),
{
}

/// The payer or the payee can freeze an active or partly released escrow:
/// the call succeeds and the escrow becomes disputed, with nothing else of
/// it changed and no funds moved.
pub proof fn law_raise_dispute_freezes(e: EscrowView, now: u64, contract: Address, caller: Address)
    requires
        caller@ == e.payer@ || caller@ == e.payee@,
        e.status == EscrowStatus::Active || e.status == EscrowStatus::PartiallyReleased,
    ensures
        ({
            let t = escrow_step(Some(e), now, contract, EscrowCall::RaiseDispute { caller });
            &&& t.result == Ok::<(), Error>(())
            &&& t.state == Some(EscrowView { status: EscrowStatus::Disputed, updated_at: now, ..e })
            &&& t.effects == seq![
                EffectView::RequireAuth(caller),
                EffectView::Publish(EventView::DisputeRaised { shipment_id: e.shipment_id, caller }),
            ]
        }),
{
}

/// Raising a dispute is refused when no escrow is set up (`NotInitialized`),
/// when the caller is neither the payer nor the payee (`Unauthorized`), and
/// when the escrow is neither active nor partly released
/// (`EscrowNotActive`); a refused call stores nothing.
pub proof fn law_raise_dispute_refusals(m: Option<EscrowView>, now: u64, contract: Address, caller: Address)
    ensures
        ({
            let t = escrow_step(m, now, contract, EscrowCall::RaiseDispute { caller });
            let e = m.unwrap();
            &&& m is None ==> t.result == Err::<(), Error>(Error::NotInitialized)
            &&& m is Some && !(caller@ == e.payer@ || caller@ == e.payee@) ==> t.result
                == Err::<(), Error>(Error::Unauthorized)
            &&& m is Some && (caller@ == e.payer@ || caller@ == e.payee@) && !(e.status
                == EscrowStatus::Active || e.status == EscrowStatus::PartiallyReleased)
                ==> t.result == Err::<(), Error>(Error::EscrowNotActive)
            &&& t.result is Err ==> t.state == m && moves_no_funds(t.effects)
            &&& m is None ==> t.effects == Seq::<EffectView>::empty()
            &&& m is Some && t.result is Err ==> t.effects == seq![EffectView::RequireAuth(caller)]
        }),
{
}

/// The dispute resolver settles a disputed escrow: the call succeeds, every
/// payment ends up released (those paid before as they were), everything
/// not paid yet goes to the payee (the escrow is then fully released) or
/// back to the payer (it is then refunded), and nothing else of the escrow
/// changes.
pub proof fn law_resolve_dispute_settles(
    e: EscrowView,
    now: u64,
    contract: Address,
    resolver: Address,
    release_to_payee: bool,
)
    requires
        resolver@ == e.dispute_resolver@,
        e.status == EscrowStatus::Disputed,
    ensures
        ({
            let t = escrow_step(
                Some(e),
                now,
                contract,
                EscrowCall::ResolveDispute { resolver, release_to_payee },
            );
            let n = t.state.unwrap();
            let p = e.milestone_payments;
            let recipient = if release_to_payee {
                e.payee
            } else {
                e.payer
            };
            let status = if release_to_payee {
                EscrowStatus::FullyReleased
            } else {
                EscrowStatus::Refunded
            };
            &&& t.result == Ok::<(), Error>(())
            &&& t.state is Some
            &&& releases_every_payment(p, n.milestone_payments, now)
            &&& n == EscrowView {
                milestone_payments: n.milestone_payments,
                status,
                updated_at: now,
                ..e
            }
            &&& sent_from(t.effects, contract@) == total_of(p) - released_total(p)
            &&& received_by(t.effects, recipient@) == total_of(p) - released_total(p)
            &&& t.effects.len() >= 2
            &&& t.effects[0] == EffectView::RequireAuth(resolver)
            &&& forall|k: int|
                1 <= k < t.effects.len() - 1 ==> is_transfer_of(#[trigger] t.effects[k], e.token, contract, recipient)
            &&& t.effects.last() == EffectView::Publish(
                EventView::DisputeResolved {
                    shipment_id: e.shipment_id,
                    resolver,
                    to_payee: release_to_payee,
                },
            )
        }),
{
    let p = e.milestone_payments;
    let recipient = if release_to_payee {
        e.payee
    } else {
        e.payer
    };
    let a = seq![EffectView::RequireAuth(resolver)];
    let po = payouts(p, e.token, contract, recipient);
    let ev = seq![
        EffectView::Publish(
            EventView::DisputeResolved {
                shipment_id: e.shipment_id,
                resolver,
                to_payee: release_to_payee,
            },
        ),
    ];
    reveal_with_fuel(sent_from, 2);
    reveal_with_fuel(received_by, 2);
    lemma_sent_from_concat(a, po, contract@);
    lemma_sent_from_concat(a + po, ev, contract@);
    lemma_sent_from_concat(a, po, recipient@);
    lemma_sent_from_concat(a + po, ev, recipient@);
    lemma_release_every(p, now, e.token, contract, recipient, contract@);
    lemma_release_every(p, now, e.token, contract, recipient, recipient@);
    lemma_payouts_shape(p, e.token, contract, recipient);
    let effects = a + po + ev;
    assert forall|k: int| 1 <= k < effects.len() - 1 implies is_transfer_of(#[trigger] effects[k], e.token, contract, recipient) by {
        assert(effects[k] == po[k - 1]);
    }
}

/// Settling a dispute is refused when no escrow is set up
/// (`NotInitialized`), when the caller is not the dispute resolver
/// (`Unauthorized`), and when the escrow is not disputed
/// (`DisputeNotActive`); a refused call stores nothing and moves no funds.
pub proof fn law_resolve_dispute_refusals(
    m: Option<EscrowView>,
    now: u64,
    contract: Address,
    resolver: Address,
    release_to_payee: bool,
)
    ensures
        ({
            let t = escrow_step(
                m,
                now,
                contract,
                EscrowCall::ResolveDispute { resolver, release_to_payee },
            );
            let e = m.unwrap();
            &&& m is None ==> t.result == Err::<(), Error>(Error::NotInitialized)
            &&& m is Some && resolver@ != e.dispute_resolver@ ==> t.result == Err::<
                (),
                Error,
            >(Error::Unauthorized)
            &&& m is Some && resolver@ == e.dispute_resolver@ && e.status
                != EscrowStatus::Disputed ==> t.result == Err::<(), Error>(Error::DisputeNotActive)
            &&& t.result is Err ==> t.state == m && moves_no_funds(t.effects)
            &&& m is None ==> t.effects == Seq::<EffectView>::empty()
            &&& m is Some && t.result is Err ==> t.effects == seq![EffectView::RequireAuth(resolver)]
        }),
{
}

} // verus!
