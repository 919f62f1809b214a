//! What holds of every escrow call, proved over the state machine that the
//! contract's calls follow (see `model::escrow_step`).

use vstd::prelude::*;
use crate::host::{Address, EffectView, EventView};
use crate::payment_escrow::model::{
    all_released, announced_payouts, escrow_step, payouts, release_every, released_total, sum_amounts,
    total_of, unreleased_payment, EscrowCall,
};
use crate::payment_escrow::types::{EscrowStatus, EscrowView, MilestonePayment};

verus! {

/// No payment of `payments` is released.
pub open spec fn none_released(payments: Seq<MilestonePayment>) -> bool {
    forall|i: int| 0 <= i < payments.len() ==> !#[trigger] payments[i].released
}

/// Some payment of `payments` is released.
pub open spec fn some_released(payments: Seq<MilestonePayment>) -> bool {
    exists|i: int| 0 <= i < payments.len() && #[trigger] payments[i].released
}

/// The escrow's invariant: positive milestone amounts adding up to the
/// positive total; nothing deposited exactly while pending; nothing paid
/// while pending or active; some but not all paid when partially released;
/// not all paid while disputed; all paid once fully released or refunded.
pub open spec fn escrow_invariant(e: EscrowView) -> bool {
    let p = e.milestone_payments;
    &&& e.total_amount > 0
    &&& p.len() > 0
    &&& forall|i: int| 0 <= i < p.len() ==> #[trigger] p[i].amount_stroops > 0
    &&& total_of(p) == e.total_amount
    &&& e.deposited_amount >= 0
    &&& (e.status == EscrowStatus::Pending <==> e.deposited_amount == 0)
    &&& (e.status == EscrowStatus::Pending || e.status == EscrowStatus::Active ==> none_released(
        p,
    ))
    &&& (e.status == EscrowStatus::PartiallyReleased ==> some_released(p) && !all_released(p))
    &&& (e.status == EscrowStatus::Disputed ==> !all_released(p))
    &&& (e.status == EscrowStatus::FullyReleased || e.status == EscrowStatus::Refunded
        ==> all_released(p))
}

/// The storage holds no escrow, or one that keeps the invariant.
pub open spec fn storage_invariant(m: Option<EscrowView>) -> bool {
    m matches Some(e) ==> escrow_invariant(e)
}

/// A deposit call would not overflow the deposited amount (the contract
/// refuses to be called with one that would).
pub open spec fn deposit_fits(m: Option<EscrowView>, call: EscrowCall) -> bool {
    call matches EscrowCall::Deposit { amount } ==> (m matches Some(e) ==> ((e.status
        == EscrowStatus::Pending || e.status == EscrowStatus::Active) && amount > 0
        && e.deposited_amount < e.total_amount ==> e.deposited_amount + amount <= i128::MAX))
}

/// The amounts that `effects` transfer out of `who`.
pub open spec fn sent_from(effects: Seq<EffectView>, who: Seq<char>) -> int
    decreases effects.len(),
{
    if effects.len() == 0 {
        0
    } else {
        sent_from(effects.drop_last(), who) + match effects.last() {
            EffectView::Transfer { from, amount, .. } => if from@ == who {
                amount as int
            } else {
                0
            },
            _ => 0,
        }
    }
}

/// The amounts that `effects` transfer to `who`.
pub open spec fn received_by(effects: Seq<EffectView>, who: Seq<char>) -> int
    decreases effects.len(),
{
    if effects.len() == 0 {
        0
    } else {
        received_by(effects.drop_last(), who) + match effects.last() {
            EffectView::Transfer { to, amount, .. } => if to@ == who {
                amount as int
            } else {
                0
            },
            _ => 0,
        }
    }
}

/// The address that a call acts for, and whose authorization it demands.
pub open spec fn actor(m: Option<EscrowView>, call: EscrowCall) -> Address {
    match call {
        EscrowCall::Initialize { payer, .. } => payer,
        EscrowCall::Deposit { .. } => m.unwrap().payer,
        EscrowCall::ReleaseMilestone { caller, .. } => caller,
        EscrowCall::ReleaseAll { caller } => caller,
        EscrowCall::RaiseDispute { caller } => caller,
        EscrowCall::ResolveDispute { resolver, .. } => resolver,
    }
}

pub proof fn lemma_sent_from_concat(a: Seq<EffectView>, b: Seq<EffectView>, who: Seq<char>)
    ensures
        sent_from(a + b, who) == sent_from(a, who) + sent_from(b, who),
        received_by(a + b, who) == received_by(a, who) + received_by(b, who),
    decreases b.len(),
{
    if b.len() == 0 {
        assert(a + b =~= a);
    } else {
        lemma_sent_from_concat(a, b.drop_last(), who);
        assert((a + b).drop_last() =~= a + b.drop_last());
    }
}

proof fn lemma_total_of_unreleased(amounts: Seq<i128>)
    ensures
        total_of(amounts.map_values(|a: i128| unreleased_payment(a))) == sum_amounts(amounts),
    decreases amounts.len(),
{
    if amounts.len() > 0 {
        lemma_total_of_unreleased(amounts.drop_last());
        assert(amounts.map_values(|a: i128| unreleased_payment(a)).drop_last()
            =~= amounts.drop_last().map_values(|a: i128| unreleased_payment(a)));
    }
}

/// Replacing a payment by one of the same amount keeps the total; releasing
/// an unreleased one adds its amount to what is released.
proof fn lemma_totals_after_update(p: Seq<MilestonePayment>, i: int, x: MilestonePayment)
    requires
        0 <= i < p.len(),
        x.amount_stroops == p[i].amount_stroops,
    ensures
        total_of(p.update(i, x)) == total_of(p),
        released_total(p.update(i, x)) == released_total(p) - (if p[i].released {
            p[i].amount_stroops as int
        } else {
            0
        }) + (if x.released {
            x.amount_stroops as int
        } else {
            0
        }),
    decreases p.len(),
{
    let q = p.update(i, x);
    if i == p.len() - 1 {
        assert(q.drop_last() =~= p.drop_last());
    } else {
        lemma_totals_after_update(p.drop_last(), i, x);
        assert(q.drop_last() =~= p.drop_last().update(i, x));
    }
}

/// Releasing every payment keeps the total and releases all of it; the
/// payouts for it send out exactly what was not released yet, all to `to`.
pub(crate) proof fn lemma_release_every(
    p: Seq<MilestonePayment>,
    now: u64,
    token: Address,
    from: Address,
    to: Address,
    who: Seq<char>,
)
    ensures
        total_of(release_every(p, now)) == total_of(p),
        released_total(release_every(p, now)) == total_of(p),
        all_released(release_every(p, now)),
        sent_from(payouts(p, token, from, to), who) == if from@ == who {
            total_of(p) - released_total(p)
        } else {
            0
        },
        received_by(payouts(p, token, from, to), who) == if to@ == who {
            total_of(p) - released_total(p)
        } else {
            0
        },
        forall|k: int|
            0 <= k < payouts(p, token, from, to).len() ==> (#[trigger] payouts(
                p,
                token,
                from,
                to,
            )[k] matches EffectView::Transfer { to: t, from: f, .. } && t == to && f == from),
    decreases p.len(),
{
    if p.len() > 0 {
        lemma_release_every(p.drop_last(), now, token, from, to, who);
        assert(release_every(p, now).drop_last() =~= release_every(p.drop_last(), now));
        let rest = payouts(p.drop_last(), token, from, to);
        let tail = if p.last().released {
            Seq::<EffectView>::empty()
        } else {
            seq![
                EffectView::Transfer {
                    token,
                    from,
                    to,
                    amount: p.last().amount_stroops,
                },
            ]
        };
        lemma_sent_from_concat(rest, tail, who);
        if !p.last().released {
            assert(tail.drop_last() =~= Seq::<EffectView>::empty());
            reveal_with_fuel(sent_from, 2);
            reveal_with_fuel(received_by, 2);
            assert(sent_from(tail, who) == if from@ == who {
                p.last().amount_stroops as int
            } else {
                0
            });
            assert(received_by(tail, who) == if to@ == who {
                p.last().amount_stroops as int
            } else {
                0
            });
        } else {
            assert(sent_from(tail, who) == 0);
            assert(received_by(tail, who) == 0);
        }
        assert(total_of(p) == total_of(p.drop_last()) + p.last().amount_stroops);
        let all = payouts(p, token, from, to);
        assert(all == rest + tail);
        assert forall|k: int| 0 <= k < all.len() implies (#[trigger] all[k] matches EffectView::Transfer {
            to: t,
            from: f,
            ..
        } && t == to && f == from) by {
            if k < rest.len() {
                assert(all[k] == rest[k]);
            } else {
                assert(all[k] == tail[k - rest.len()]);
            }
        }
    }
}

/// Announcing each payout moves the same funds as the bare payouts, to the
/// same place.
pub(crate) proof fn lemma_announced_payouts(
    p: Seq<MilestonePayment>,
    token: Address,
    from: Address,
    to: Address,
    shipment_id: Seq<u8>,
    caller: Address,
    who: Seq<char>,
)
    ensures
        sent_from(announced_payouts(p, token, from, to, shipment_id, caller), who) == sent_from(
            payouts(p, token, from, to),
            who,
        ),
        received_by(announced_payouts(p, token, from, to, shipment_id, caller), who)
            == received_by(payouts(p, token, from, to), who),
        forall|k: int|
            0 <= k < announced_payouts(p, token, from, to, shipment_id, caller).len() ==> (
            #[trigger] announced_payouts(p, token, from, to, shipment_id, caller)[k] matches EffectView::Transfer {
                to: t,
                from: f,
                ..
            } ==> t == to && f == from),
    decreases p.len(),
{
    if p.len() > 0 {
        lemma_announced_payouts(p.drop_last(), token, from, to, shipment_id, caller, who);
        let rest = announced_payouts(p.drop_last(), token, from, to, shipment_id, caller);
        let bare = payouts(p.drop_last(), token, from, to);
        let tail = if p.last().released {
            Seq::<EffectView>::empty()
        } else {
            seq![
                EffectView::Transfer { token, from, to, amount: p.last().amount_stroops },
                EffectView::Publish(
                    EventView::MilestoneReleased {
                        shipment_id,
                        caller,
                        index: (p.len() - 1) as u32,
                        amount: p.last().amount_stroops,
                    },
                ),
            ]
        };
        let bare_tail = if p.last().released {
            Seq::<EffectView>::empty()
        } else {
            seq![EffectView::Transfer { token, from, to, amount: p.last().amount_stroops }]
        };
        lemma_sent_from_concat(rest, tail, who);
        lemma_sent_from_concat(bare, bare_tail, who);
        reveal_with_fuel(sent_from, 3);
        reveal_with_fuel(received_by, 3);
        if !p.last().released {
            assert(tail.drop_last().drop_last() =~= Seq::<EffectView>::empty());
            assert(tail.drop_last() =~= bare_tail);
            assert(bare_tail.drop_last() =~= Seq::<EffectView>::empty());
        }
        let all = announced_payouts(p, token, from, to, shipment_id, caller);
        assert(all == rest + tail);
        assert forall|k: int| 0 <= k < all.len() implies (#[trigger] all[k] matches EffectView::Transfer {
            to: t,
            from: f,
            ..
        } ==> t == to && f == from) by {
            if k < rest.len() {
                assert(all[k] == rest[k]);
            } else {
                assert(all[k] == tail[k - rest.len()]);
            }
        }
    }
}

proof fn lemma_released_within_total(p: Seq<MilestonePayment>)
    requires
        forall|i: int| 0 <= i < p.len() ==> #[trigger] p[i].amount_stroops > 0,
    ensures
        0 <= released_total(p) <= total_of(p),
    decreases p.len(),
{
    if p.len() > 0 {
        assert(p[p.len() - 1].amount_stroops > 0);
        lemma_released_within_total(p.drop_last());
    }
}

/// What an escrow has paid out in all is never more than its total.
pub proof fn lemma_paid_out_within_total(e: EscrowView)
    requires
        escrow_invariant(e),
    ensures
        0 <= released_total(e.milestone_payments) <= e.total_amount,
{
    lemma_released_within_total(e.milestone_payments);
}

/// A refused call leaves the escrow's storage as it was.
pub proof fn lemma_refused_call_changes_nothing(
    m: Option<EscrowView>,
    now: u64,
    contract: Address,
    call: EscrowCall,
)
    ensures
        escrow_step(m, now, contract, call).result is Err ==> escrow_step(
            m,
            now,
            contract,
            call,
        ).state == m,
{
}

/// A call that succeeds first demands the authorization of the address it
/// acts for: the payer to set up and to deposit, else the caller.
pub proof fn lemma_success_demands_authorization(
    m: Option<EscrowView>,
    now: u64,
    contract: Address,
    call: EscrowCall,
)
    ensures
        escrow_step(m, now, contract, call).result is Ok ==> {
            let t = escrow_step(m, now, contract, call);
            t.effects.len() > 0 && t.effects[0] == EffectView::RequireAuth(actor(m, call))
        },
{
}

/// A fully released or refunded escrow is settled for good: every call is
/// refused and changes nothing.
pub proof fn lemma_settled_escrow_is_final(
    m: Option<EscrowView>,
    now: u64,
    contract: Address,
    call: EscrowCall,
)
    requires
        m matches Some(e) && (e.status == EscrowStatus::FullyReleased || e.status
            == EscrowStatus::Refunded),
    ensures
        escrow_step(m, now, contract, call).result is Err,
        escrow_step(m, now, contract, call).state == m,
{
}

/// The escrow is set up once: `initialize` is refused once it exists.
pub proof fn lemma_escrow_is_set_up_once(
    m: Option<EscrowView>,
    now: u64,
    contract: Address,
    call: EscrowCall,
)
    requires
        m is Some,
        call is Initialize,
    ensures
        escrow_step(m, now, contract, call).result is Err,
        escrow_step(m, now, contract, call).state == m,
{
}

/// A disputed escrow is frozen: until the dispute resolver settles it, every
/// other call is refused and changes nothing.
pub proof fn lemma_disputed_escrow_is_frozen(
    m: Option<EscrowView>,
    now: u64,
    contract: Address,
    call: EscrowCall,
)
    requires
        m matches Some(e) && e.status == EscrowStatus::Disputed,
        !(call is ResolveDispute),
    ensures
        escrow_step(m, now, contract, call).result is Err,
        escrow_step(m, now, contract, call).state == m,
{
}

/// Once set up, the escrow keeps its parties, token, total, creation time
/// and milestone amounts; a payment once released stays released, as it was.
pub proof fn lemma_payments_only_get_released(
    m: Option<EscrowView>,
    now: u64,
    contract: Address,
    call: EscrowCall,
)
    requires
        m is Some,
    ensures
        ({
            let e = m.unwrap();
            let t = escrow_step(m, now, contract, call);
            &&& t.state is Some
            &&& t.state.unwrap().shipment_id == e.shipment_id
            &&& t.state.unwrap().payer == e.payer
            &&& t.state.unwrap().payee == e.payee
            &&& t.state.unwrap().token == e.token
            &&& t.state.unwrap().dispute_resolver == e.dispute_resolver
            &&& t.state.unwrap().total_amount == e.total_amount
            &&& t.state.unwrap().created_at == e.created_at
            &&& t.state.unwrap().milestone_payments.len() == e.milestone_payments.len()
            &&& forall|i: int|
                0 <= i < e.milestone_payments.len() ==> #[trigger] t.state.unwrap().milestone_payments[i].amount_stroops
                    == e.milestone_payments[i].amount_stroops
            &&& forall|i: int|
                0 <= i < e.milestone_payments.len() && e.milestone_payments[i].released
                    ==> #[trigger] t.state.unwrap().milestone_payments[i]
                    == e.milestone_payments[i]
        }),
{
}

/// Every call keeps the escrow's invariant.
pub proof fn lemma_invariant_is_kept(
    m: Option<EscrowView>,
    now: u64,
    contract: Address,
    call: EscrowCall,
)
    requires
        storage_invariant(m),
        deposit_fits(m, call),
    ensures
        storage_invariant(escrow_step(m, now, contract, call).state),
{
    let t = escrow_step(m, now, contract, call);
    if t.result is Ok {
        match call {
            EscrowCall::Initialize { milestone_amounts, .. } => {
                lemma_total_of_unreleased(milestone_amounts);
            },
            EscrowCall::Deposit { .. } => {},
            EscrowCall::ReleaseMilestone { milestone_index, .. } => {
                let e = m.unwrap();
                let p = e.milestone_payments;
                let i = milestone_index as int;
                let x = MilestonePayment { released: true, released_at: now, ..p[i] };
                lemma_totals_after_update(p, i, x);
                let q = p.update(i, x);
                assert(q[i].released);
                assert(some_released(q));
            },
            EscrowCall::ReleaseAll { .. } => {
                let e = m.unwrap();
                lemma_release_every(e.milestone_payments, now, e.token, contract, e.payee, contract@);
            },
            EscrowCall::RaiseDispute { .. } => {
                let e = m.unwrap();
                if e.status == EscrowStatus::Active {
                    assert(!e.milestone_payments[0].released);
                }
            },
            EscrowCall::ResolveDispute { .. } => {
                let e = m.unwrap();
                lemma_release_every(e.milestone_payments, now, e.token, contract, e.payee, contract@);
            },
        }
    }
}

/// Funds move only as the books say: what a call sends out of the contract
/// is exactly the amount of the payments it releases, and what it sends into
/// the contract is exactly what it adds to the deposited amount. (The
/// parties are other accounts than the escrow contract itself.)
pub proof fn lemma_funds_follow_the_books(
    m: Option<EscrowView>,
    now: u64,
    contract: Address,
    call: EscrowCall,
)
    requires
        m matches Some(e) && e.payer@ != contract@ && e.payee@ != contract@,
        deposit_fits(m, call),
    ensures
        ({
            let e = m.unwrap();
            let t = escrow_step(m, now, contract, call);
            let e2 = t.state.unwrap();
            &&& sent_from(t.effects, contract@) == released_total(e2.milestone_payments)
                - released_total(e.milestone_payments)
            &&& received_by(t.effects, contract@) == e2.deposited_amount - e.deposited_amount
        }),
{
    let e = m.unwrap();
    let t = escrow_step(m, now, contract, call);
    match call {
        EscrowCall::Initialize { .. } => {},
        EscrowCall::Deposit { amount } => {
            if t.result is Ok {
                reveal_with_fuel(sent_from, 4);
                reveal_with_fuel(received_by, 4);
            }
        },
        EscrowCall::ReleaseMilestone { caller, milestone_index } => {
            if t.result is Ok {
                let p = e.milestone_payments;
                let i = milestone_index as int;
                let x = MilestonePayment { released: true, released_at: now, ..p[i] };
                lemma_totals_after_update(p, i, x);
                reveal_with_fuel(sent_from, 4);
                reveal_with_fuel(received_by, 4);
            } else {
                reveal_with_fuel(sent_from, 2);
                reveal_with_fuel(received_by, 2);
            }
        },
        EscrowCall::ReleaseAll { caller } => {
            reveal_with_fuel(sent_from, 2);
            reveal_with_fuel(received_by, 2);
            if t.result is Ok {
                let a = seq![EffectView::RequireAuth(caller)];
                let po = announced_payouts(
                    e.milestone_payments,
                    e.token,
                    contract,
                    e.payee,
                    e.shipment_id,
                    caller,
                );
                lemma_sent_from_concat(a, po, contract@);
                lemma_announced_payouts(
                    e.milestone_payments,
                    e.token,
                    contract,
                    e.payee,
                    e.shipment_id,
                    caller,
                    contract@,
                );
                lemma_release_every(e.milestone_payments, now, e.token, contract, e.payee, contract@);
            }
        },
        EscrowCall::RaiseDispute { caller } => {
            reveal_with_fuel(sent_from, 3);
            reveal_with_fuel(received_by, 3);
        },
        EscrowCall::ResolveDispute { resolver, release_to_payee } => {
            reveal_with_fuel(sent_from, 2);
            reveal_with_fuel(received_by, 2);
            if t.result is Ok {
                let recipient = if release_to_payee {
                    e.payee
                } else {
                    e.payer
                };
                let a = seq![EffectView::RequireAuth(resolver)];
                let po = payouts(e.milestone_payments, e.token, contract, recipient);
                let ev = seq![
                    EffectView::Publish(
                        crate::host::EventView::DisputeResolved {
                            shipment_id: e.shipment_id,
                            resolver,
                            to_payee: release_to_payee,
                        },
                    ),
                ];
                lemma_sent_from_concat(a, po, contract@);
                lemma_sent_from_concat(a + po, ev, contract@);
                lemma_release_every(e.milestone_payments, now, e.token, contract, recipient, contract@);
            }
        },
    }
}

/// Payments go only to the payee, except that a dispute settled for the
/// payer sends what is left back to the payer. (The payer is another account
/// than the escrow contract itself.)
pub proof fn lemma_payments_go_to_the_payee(
    m: Option<EscrowView>,
    now: u64,
    contract: Address,
    call: EscrowCall,
)
    requires
        m matches Some(e) && e.payer@ != contract@,
    ensures
        ({
            let e = m.unwrap();
            let t = escrow_step(m, now, contract, call);
            let refund = call matches EscrowCall::ResolveDispute { release_to_payee, .. }
                && !release_to_payee;
            forall|k: int|
                0 <= k < t.effects.len() ==> (#[trigger] t.effects[k] matches EffectView::Transfer {
                    from,
                    to,
                    ..
                } ==> (from@ == contract@ ==> to == if refund {
                    e.payer
                } else {
                    e.payee
                }))
        }),
{
    let e = m.unwrap();
    let t = escrow_step(m, now, contract, call);
    match call {
        EscrowCall::ReleaseAll { caller } => {
            if t.result is Ok {
                lemma_announced_payouts(
                    e.milestone_payments,
                    e.token,
                    contract,
                    e.payee,
                    e.shipment_id,
                    caller,
                    contract@,
                );
                let po = announced_payouts(
                    e.milestone_payments,
                    e.token,
                    contract,
                    e.payee,
                    e.shipment_id,
                    caller,
                );
                assert forall|k: int| 0 <= k < t.effects.len() implies (#[trigger] t.effects[k] matches EffectView::Transfer {
                    from,
                    to,
                    ..
                } ==> (from@ == contract@ ==> to == e.payee)) by {
                    if k >= 1 {
                        assert(t.effects[k] == po[k - 1]);
                    }
                }
            }
        },
        EscrowCall::ResolveDispute { resolver, release_to_payee } => {
            if t.result is Ok {
                let recipient = if release_to_payee {
                    e.payee
                } else {
                    e.payer
                };
                lemma_release_every(e.milestone_payments, now, e.token, contract, recipient, contract@);
                let po = payouts(e.milestone_payments, e.token, contract, recipient);
                assert forall|k: int| 0 <= k < t.effects.len() implies (#[trigger] t.effects[k] matches EffectView::Transfer {
                    from,
                    to,
                    ..
                } ==> (from@ == contract@ ==> to == recipient)) by {
                    if 1 <= k < 1 + po.len() {
                        assert(t.effects[k] == po[k - 1]);
                    }
                }
            }
        },
        _ => {},
    }
}

} // verus!
