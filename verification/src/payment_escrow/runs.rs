//! Laws over whole runs of escrow calls: the invariant holds all along, the
//! terms of the escrow never change, a released payment stays released, and
//! what leaves the contract in all is what the run released, never more
//! than the total.

use vstd::prelude::*;
use crate::host::{Address, EffectView};
use crate::payment_escrow::laws::{
    deposit_fits, lemma_funds_follow_the_books, lemma_invariant_is_kept,
    lemma_paid_out_within_total, lemma_payments_only_get_released, sent_from, storage_invariant,
};
use crate::payment_escrow::model::{
    escrow_step, released_total, unreleased_payment, EscrowCall,
};
use crate::payment_escrow::types::{EscrowStatus, EscrowView, MilestonePayment};

verus! {

/// An escrow call made in the ledger closed at `timestamp`.
pub struct EscrowLedgerCall {
    pub timestamp: u64,
    pub call: EscrowCall,
}

/// The storage after the calls of `steps`, in order, starting from `m`, of
/// the escrow contract at `contract`.
pub open spec fn escrow_run(m: Option<EscrowView>, contract: Address, steps: Seq<EscrowLedgerCall>) -> Option<
    EscrowView,
>
    decreases steps.len(),
{
    if steps.len() == 0 {
        m
    } else {
        let l = steps.last();
        escrow_step(escrow_run(m, contract, steps.drop_last()), l.timestamp, contract, l.call).state
    }
}

/// What the calls of `steps` ask of the host, in order.
pub open spec fn escrow_run_effects(
    m: Option<EscrowView>,
    contract: Address,
    steps: Seq<EscrowLedgerCall>,
) -> Seq<EffectView>
    decreases steps.len(),
{
    if steps.len() == 0 {
        Seq::empty()
    } else {
        let l = steps.last();
        escrow_run_effects(m, contract, steps.drop_last()) + escrow_step(
            escrow_run(m, contract, steps.drop_last()),
            l.timestamp,
            contract,
            l.call,
        ).effects
    }
}

/// No deposit of the run overflows the deposited amount (the contract
/// refuses to be called with one that would).
pub open spec fn deposits_fit_along(
    m: Option<EscrowView>,
    contract: Address,
    steps: Seq<EscrowLedgerCall>,
) -> bool
    decreases steps.len(),
{
    if steps.len() == 0 {
        true
    } else {
        deposits_fit_along(m, contract, steps.drop_last()) && deposit_fits(
            escrow_run(m, contract, steps.drop_last()),
            steps.last().call,
        )
    }
}

/// The escrow `e2` has the terms of `e` (parties, token, total, creation
/// time, amounts), and every payment released in `e` is released in `e2`,
/// as it was.
pub open spec fn keeps_terms(e: EscrowView, e2: EscrowView) -> bool {
    &&& e2.shipment_id == e.shipment_id
    &&& e2.payer == e.payer
    &&& e2.payee == e.payee
    &&& e2.token == e.token
    &&& e2.dispute_resolver == e.dispute_resolver
    &&& e2.total_amount == e.total_amount
    &&& e2.created_at == e.created_at
    &&& e2.milestone_payments.len() == e.milestone_payments.len()
    &&& forall|i: int|
        0 <= i < e.milestone_payments.len() ==> #[trigger] e2.milestone_payments[i].amount_stroops
            == e.milestone_payments[i].amount_stroops
    &&& forall|i: int|
        0 <= i < e.milestone_payments.len() && e.milestone_payments[i].released
            ==> #[trigger] e2.milestone_payments[i] == e.milestone_payments[i]
}

/// A successful setup stores exactly what it was given: the parties, token,
/// total and shipment, nothing deposited, pending, one unreleased payment per
/// amount, created at the ledger's time; read back by `get_escrow`.
pub proof fn lemma_setup_reads_back(
    now: u64,
    contract: Address,
    shipment_id: Seq<u8>,
    payer: Address,
    payee: Address,
    token: Address,
    total_amount: i128,
    milestone_amounts: Seq<i128>,
    dispute_resolver: Address,
)
    requires
        escrow_step(
            None,
            now,
            contract,
            EscrowCall::Initialize {
                shipment_id,
                payer,
                payee,
                token,
                total_amount,
                milestone_amounts,
                dispute_resolver,
            },
        ).result is Ok,
    ensures
        ({
            let e = escrow_step(
                None,
                now,
                contract,
                EscrowCall::Initialize {
                    shipment_id,
                    payer,
                    payee,
                    token,
                    total_amount,
                    milestone_amounts,
                    dispute_resolver,
                },
            ).state.unwrap();
            &&& e.shipment_id == shipment_id
            &&& e.payer == payer
            &&& e.payee == payee
            &&& e.token == token
            &&& e.dispute_resolver == dispute_resolver
            &&& e.total_amount == total_amount
            &&& e.deposited_amount == 0
            &&& e.status == EscrowStatus::Pending
            &&& e.created_at == now
            &&& e.milestone_payments.len() == milestone_amounts.len()
            &&& forall|i: int|
                0 <= i < milestone_amounts.len() ==> #[trigger] e.milestone_payments[i]
                    == unreleased_payment(milestone_amounts[i])
        }),
{
}

/// Along any run without an overflowing deposit, the escrow's invariant
/// holds, and what it has released in all stays within its total.
pub proof fn lemma_run_keeps_invariant(
    m: Option<EscrowView>,
    contract: Address,
    steps: Seq<EscrowLedgerCall>,
)
    requires
        storage_invariant(m),
        deposits_fit_along(m, contract, steps),
    ensures
        storage_invariant(escrow_run(m, contract, steps)),
        escrow_run(m, contract, steps) matches Some(e) ==> 0 <= released_total(e.milestone_payments)
            <= e.total_amount,
    decreases steps.len(),
{
    if steps.len() > 0 {
        let l = steps.last();
        lemma_run_keeps_invariant(m, contract, steps.drop_last());
        lemma_invariant_is_kept(escrow_run(m, contract, steps.drop_last()), l.timestamp, contract, l.call);
    }
    if let Some(e) = escrow_run(m, contract, steps) {
        lemma_paid_out_within_total(e);
    }
}

/// Once set up, the escrow keeps its terms through any run, and a released
/// payment stays released, as it was.
pub proof fn lemma_run_keeps_terms(m: Option<EscrowView>, contract: Address, steps: Seq<EscrowLedgerCall>)
    requires
        m is Some,
    ensures
        escrow_run(m, contract, steps) is Some,
        keeps_terms(m.unwrap(), escrow_run(m, contract, steps).unwrap()),
    decreases steps.len(),
{
    if steps.len() > 0 {
        let l = steps.last();
        let prev = escrow_run(m, contract, steps.drop_last());
        lemma_run_keeps_terms(m, contract, steps.drop_last());
        lemma_payments_only_get_released(prev, l.timestamp, contract, l.call);
    }
}

/// Over any run of a set-up escrow (without an overflowing deposit, and with
/// parties other than the contract itself), what leaves the contract in all
/// is exactly what the run released: each milestone's amount at most once,
/// and never more than the total.
pub proof fn lemma_run_pays_out_what_it_releases(
    m: Option<EscrowView>,
    contract: Address,
    steps: Seq<EscrowLedgerCall>,
)
    requires
        m matches Some(e) && e.payer@ != contract@ && e.payee@ != contract@,
        storage_invariant(m),
        deposits_fit_along(m, contract, steps),
    ensures
        ({
            let e = m.unwrap();
            let e2 = escrow_run(m, contract, steps).unwrap();
            &&& sent_from(escrow_run_effects(m, contract, steps), contract@) == released_total(
                e2.milestone_payments,
            ) - released_total(e.milestone_payments)
            &&& sent_from(escrow_run_effects(m, contract, steps), contract@) <= e.total_amount
        }),
    decreases steps.len(),
{
    lemma_run_keeps_terms(m, contract, steps);
    lemma_run_keeps_invariant(m, contract, steps);
    let e = m.unwrap();
    if steps.len() == 0 {
        lemma_paid_out_within_total(e);
    } else {
        let l = steps.last();
        let prev = escrow_run(m, contract, steps.drop_last());
        lemma_run_pays_out_what_it_releases(m, contract, steps.drop_last());
        lemma_run_keeps_terms(m, contract, steps.drop_last());
        lemma_funds_follow_the_books(prev, l.timestamp, contract, l.call);
        crate::payment_escrow::laws::lemma_sent_from_concat(
            escrow_run_effects(m, contract, steps.drop_last()),
            escrow_step(prev, l.timestamp, contract, l.call).effects,
            contract@,
        );
        lemma_paid_out_within_total(e);
        lemma_released_total_nonneg(e.milestone_payments);
    }
}

proof fn lemma_released_total_nonneg(p: Seq<MilestonePayment>)
    requires
        forall|i: int| 0 <= i < p.len() ==> #[trigger] p[i].amount_stroops > 0,
    ensures
        released_total(p) >= 0,
    decreases p.len(),
{
    if p.len() > 0 {
        assert(p[p.len() - 1].amount_stroops > 0);
        lemma_released_total_nonneg(p.drop_last());
    }
}

} // verus!
