//! The payment escrow contract: its storage and its calls.

use vstd::prelude::*;
use crate::host::{Address, Context, Effect, EffectView, EventView};
use crate::payment_escrow::errors::Error;
use crate::payment_escrow::events;
use crate::payment_escrow::model::{
    all_released, announced_payouts, escrow_step, payouts, positive_prefix_sums_fit, release, release_every,
    sum_amounts, unreleased_payment, EscrowCall,
};
use crate::payment_escrow::types::{Escrow, EscrowStatus, EscrowView, MilestonePayment};

verus! {

/// The storage of the payment escrow: the escrow, once it is set up.
pub struct PaymentEscrowContract {
    escrow: Option<Escrow>,
}

impl View for PaymentEscrowContract {
    type V = Option<EscrowView>;

    closed spec fn view(&self) -> Option<EscrowView> {
        match self.escrow {
            Some(e) => Some(e@),
            None => None,
        }
    }
}

/// `a` and `b` are the same address.
fn same_address(a: &Address, b: &Address) -> (r: bool)
    ensures
        r == (a@ == b@),
{
    a.eq(b)
}

/// Moves `amount` of `token` from `from` to `to`.
fn transfer(ctx: &mut Context, token: &Address, from: &Address, to: &Address, amount: i128)
    ensures
        final(ctx).same_ledger(old(ctx)),
        final(ctx).log() == old(ctx).log().push(
            EffectView::Transfer { token: *token, from: *from, to: *to, amount },
        ),
{
    ctx.record(
        Effect::Transfer { token: token.clone(), from: from.clone(), to: to.clone(), amount },
    );
}

/// Every payment of `payments` is released.
fn all_payments_released(payments: &Vec<MilestonePayment>) -> (r: bool)
    ensures
        r == all_released(payments@),
{
    let mut i: usize = 0;
    while i < payments.len()
        invariant
            i <= payments@.len(),
            forall|j: int| 0 <= j < i ==> #[trigger] payments@[j].released,
        decreases payments@.len() - i,
    {
        if !payments[i].released {
            return false;
        }
        i = i + 1;
    }
    true
}

/// Pays every payment of `payments` not released yet from `from` to `to`, in
/// order, and marks it released at the ledger's time.
fn pay_out_remaining(
    ctx: &mut Context,
    payments: &mut Vec<MilestonePayment>,
    token: &Address,
    from: &Address,
    to: &Address,
)
    ensures
        final(ctx).same_ledger(old(ctx)),
        final(payments)@ == release_every(old(payments)@, old(ctx).timestamp),
        final(ctx).log() == old(ctx).log() + payouts(old(payments)@, *token, *from, *to),
{
    let now = ctx.timestamp;
    let ghost before = payments@;
    let mut i: usize = 0;
    assert(before.take(0) =~= Seq::<MilestonePayment>::empty());
    assert(old(ctx).log() + payouts(before.take(0), *token, *from, *to) =~= old(ctx).log());
    while i < payments.len()
        invariant
            i <= payments@.len(),
            payments@.len() == before.len(),
            now == old(ctx).timestamp,
            ctx.same_ledger(old(ctx)),
            forall|j: int| 0 <= j < i ==> payments@[j] == release(before[j], now),
            forall|j: int| i <= j < payments@.len() ==> payments@[j] == before[j],
            ctx.log() == old(ctx).log() + payouts(before.take(i as int), *token, *from, *to),
        decreases payments@.len() - i,
    {
        let mut payment = payments[i];
        assert(before.take(i + 1).drop_last() =~= before.take(i as int));
        if !payment.released {
            transfer(ctx, token, from, to, payment.amount_stroops);
            payment.released = true;
            payment.released_at = now;
            payments.set(i, payment);
        }
        i = i + 1;
        assert(ctx.log() =~= old(ctx).log() + payouts(before.take(i as int), *token, *from, *to));
    }
    assert(before.take(before.len() as int) =~= before);
    assert(payments@ =~= release_every(before, now));
}

/// Pays every payment of `payments` not released yet from `from` to `to`, in
/// order, announcing each with a `RELEASED` event for `caller`, and marks it
/// released at the ledger's time.
fn pay_out_and_announce(
    ctx: &mut Context,
    payments: &mut Vec<MilestonePayment>,
    token: &Address,
    from: &Address,
    to: &Address,
    shipment_id: &Vec<u8>,
    caller: &Address,
)
    ensures
        final(ctx).same_ledger(old(ctx)),
        final(payments)@ == release_every(old(payments)@, old(ctx).timestamp),
        final(ctx).log() == old(ctx).log() + announced_payouts(
            old(payments)@,
            *token,
            *from,
            *to,
            shipment_id@,
            *caller,
        ),
{
    let now = ctx.timestamp;
    let ghost before = payments@;
    let mut i: usize = 0;
    assert(before.take(0) =~= Seq::<MilestonePayment>::empty());
    assert(old(ctx).log() + announced_payouts(
        before.take(0),
        *token,
        *from,
        *to,
        shipment_id@,
        *caller,
    ) =~= old(ctx).log());
    while i < payments.len()
        invariant
            i <= payments@.len(),
            payments@.len() == before.len(),
            now == old(ctx).timestamp,
            ctx.same_ledger(old(ctx)),
            forall|j: int| 0 <= j < i ==> payments@[j] == release(before[j], now),
            forall|j: int| i <= j < payments@.len() ==> payments@[j] == before[j],
            ctx.log() == old(ctx).log() + announced_payouts(
                before.take(i as int),
                *token,
                *from,
                *to,
                shipment_id@,
                *caller,
            ),
        decreases payments@.len() - i,
    {
        let mut payment = payments[i];
        assert(before.take(i + 1).drop_last() =~= before.take(i as int));
        if !payment.released {
            transfer(ctx, token, from, to, payment.amount_stroops);
            events::milestone_released(ctx, shipment_id, caller, i as u32, payment.amount_stroops);
            payment.released = true;
            payment.released_at = now;
            payments.set(i, payment);
        }
        i = i + 1;
        assert(ctx.log() =~= old(ctx).log() + announced_payouts(
            before.take(i as int),
            *token,
            *from,
            *to,
            shipment_id@,
            *caller,
        ));
    }
    assert(before.take(before.len() as int) =~= before);
    assert(payments@ =~= release_every(before, now));
}

impl PaymentEscrowContract {
    /// Empty storage: no escrow yet.
    pub fn new() -> (c: Self)
        ensures
            c@ is None,
    {
        PaymentEscrowContract { escrow: None }
    }

    /// Storage holding `escrow`.
    pub fn restore(escrow: Option<Escrow>) -> (c: Self)
        ensures
            c@ == match escrow {
                Some(e) => Some(e@),
                None => None::<EscrowView>,
            },
    {
        PaymentEscrowContract { escrow }
    }

    /// A copy of the escrow.
    fn load_escrow(&self) -> (r: Result<Escrow, Error>)
        ensures
            match r {
                Ok(e) => self@ == Some(e@),
                Err(err) => self@ is None && err == Error::NotInitialized,
            },
    {
        match &self.escrow {
            Some(e) => Ok(e.clone()),
            None => Err(Error::NotInitialized),
        }
    }

    /// Stores `escrow`.
    fn save_escrow(&mut self, escrow: Escrow)
        ensures
            final(self)@ == Some(escrow@),
    {
        self.escrow = Some(escrow);
    }

    /// Sets up the escrow of `shipment_id`: `payer` owes `total_amount` of
    /// `token` to `payee`, split over the milestones by `milestone_amounts`,
    /// and `dispute_resolver` settles disputes.
    #[verifier::loop_isolation(false)]
    pub fn initialize(
        &mut self,
        ctx: &mut Context,
        shipment_id: Vec<u8>,
        payer: Address,
        payee: Address,
        token: Address,
        total_amount: i128,
        milestone_amounts: Vec<i128>,
        dispute_resolver: Address,
    ) -> (res: Result<(), Error>)
        requires
            old(self)@ is None && total_amount > 0 ==> positive_prefix_sums_fit(milestone_amounts@),
        ensures
            final(ctx).same_ledger(old(ctx)),
            ({
                let t = escrow_step(
                    old(self)@,
                    old(ctx).timestamp,
                    old(ctx).current_contract,
                    EscrowCall::Initialize {
                        shipment_id: shipment_id@,
                        payer,
                        payee,
                        token,
                        total_amount,
                        milestone_amounts: milestone_amounts@,
                        dispute_resolver,
                    },
                );
                &&& res == t.result
                &&& final(self)@ == t.state
                &&& final(ctx).log() == old(ctx).log() + t.effects
            }),
    {
        assert(old(ctx).log() + Seq::<EffectView>::empty() =~= old(ctx).log());
        if self.escrow.is_some() {
            return Err(Error::AlreadyInitialized);
        }
        if total_amount <= 0 {
            return Err(Error::ZeroAmount);
        }
        let ghost amounts = milestone_amounts@;
        let mut sum: i128 = 0;
        let mut payments: Vec<MilestonePayment> = Vec::new();
        let mut i: usize = 0;
        assert(amounts.take(0) =~= Seq::<i128>::empty());
        while i < milestone_amounts.len()
            invariant
                amounts == milestone_amounts@,
                positive_prefix_sums_fit(amounts),
                i <= amounts.len(),
                sum == sum_amounts(amounts.take(i as int)),
                forall|j: int| 0 <= j < i ==> amounts[j] > 0,
                payments@ == amounts.take(i as int).map_values(|a: i128| unreleased_payment(a)),
            decreases amounts.len() - i,
        {
            let amount = milestone_amounts[i];
            if amount <= 0 {
                assert(0 <= i < milestone_amounts@.len() && milestone_amounts@[i as int] <= 0);
                return Err(Error::ZeroAmount);
            }
            proof {
                assert(amounts.take(i + 1).drop_last() =~= amounts.take(i as int));
                assert(forall|j: int| 0 <= j < i + 1 ==> amounts[j] > 0);
                assert(sum_amounts(amounts.take(i + 1)) <= i128::MAX);
            }
            sum = sum + amount;
            payments.push(MilestonePayment { amount_stroops: amount, released: false, released_at: 0 });
            i = i + 1;
            assert(payments@ =~= amounts.take(i as int).map_values(
                |a: i128| unreleased_payment(a),
            ));
        }
        assert(amounts.take(amounts.len() as int) =~= amounts);
        if sum != total_amount {
            return Err(Error::InvalidMilestoneAmounts);
        }

        ctx.require_auth(&payer);
        let now = ctx.timestamp;
        let escrow = Escrow {
            shipment_id,
            payer,
            payee,
            token,
            total_amount,
            deposited_amount: 0,
            milestone_payments: payments,
            status: EscrowStatus::Pending,
            dispute_resolver,
            created_at: now,
            updated_at: now,
        };
        self.save_escrow(escrow);
        assert(ctx.log() =~= old(ctx).log() + seq![EffectView::RequireAuth(payer)]);
        Ok(())
    }

    /// The payer moves `amount` of the escrow's token into this contract.
    pub fn deposit(&mut self, ctx: &mut Context, amount: i128) -> (res: Result<(), Error>)
        requires
            old(self)@ matches Some(e) ==> ((e.status == EscrowStatus::Pending || e.status
                == EscrowStatus::Active) && amount > 0 && e.deposited_amount < e.total_amount
                ==> e.deposited_amount + amount <= i128::MAX),
        ensures
            final(ctx).same_ledger(old(ctx)),
            ({
                let t = escrow_step(
                    old(self)@,
                    old(ctx).timestamp,
                    old(ctx).current_contract,
                    EscrowCall::Deposit { amount },
                );
                &&& res == t.result
                &&& final(self)@ == t.state
                &&& final(ctx).log() == old(ctx).log() + t.effects
            }),
    {
        assert(old(ctx).log() + Seq::<EffectView>::empty() =~= old(ctx).log());
        let mut escrow = match self.load_escrow() {
            Ok(e) => e,
            Err(e) => {
                return Err(e);
            },
        };
        if escrow.status != EscrowStatus::Pending && escrow.status != EscrowStatus::Active {
            return Err(Error::EscrowNotActive);
        }
        if amount <= 0 {
            return Err(Error::ZeroAmount);
        }
        if escrow.deposited_amount >= escrow.total_amount {
            return Err(Error::AlreadyFullyFunded);
        }

        ctx.require_auth(&escrow.payer);
        let contract = ctx.current_contract.clone();
        transfer(ctx, &escrow.token, &escrow.payer, &contract, amount);

        escrow.deposited_amount = escrow.deposited_amount + amount;
        escrow.status = EscrowStatus::Active;
        escrow.updated_at = ctx.timestamp;

        events::escrow_funded(ctx, &escrow.shipment_id, &escrow.payer, amount);
        self.save_escrow(escrow);
        let ghost e = old(self)@.unwrap();
        assert(ctx.log() =~= old(ctx).log() + seq![
            EffectView::RequireAuth(e.payer),
            EffectView::Transfer {
                token: e.token,
                from: e.payer,
                to: old(ctx).current_contract,
                amount,
            },
            EffectView::Publish(
                EventView::EscrowFunded { shipment_id: e.shipment_id, payer: e.payer, amount },
            ),
        ]);
        Ok(())
    }

    /// Pays milestone `milestone_index` to the payee; the payer or the
    /// dispute resolver may do so, once per milestone.
    pub fn release_milestone(&mut self, ctx: &mut Context, caller: Address, milestone_index: u32) -> (res:
        Result<(), Error>)
        ensures
            final(ctx).same_ledger(old(ctx)),
            ({
                let t = escrow_step(
                    old(self)@,
                    old(ctx).timestamp,
                    old(ctx).current_contract,
                    EscrowCall::ReleaseMilestone { caller, milestone_index },
                );
                &&& res == t.result
                &&& final(self)@ == t.state
                &&& final(ctx).log() == old(ctx).log() + t.effects
            }),
    {
        assert(old(ctx).log() + Seq::<EffectView>::empty() =~= old(ctx).log());
        let mut escrow = match self.load_escrow() {
            Ok(e) => e,
            Err(e) => {
                return Err(e);
            },
        };
        ctx.require_auth(&caller);
        assert(ctx.log() =~= old(ctx).log() + seq![EffectView::RequireAuth(caller)]);
        if !same_address(&caller, &escrow.payer) && !same_address(&caller, &escrow.dispute_resolver) {
            return Err(Error::Unauthorized);
        }
        if escrow.status != EscrowStatus::Active && escrow.status != EscrowStatus::PartiallyReleased {
            return Err(Error::EscrowNotActive);
        }
        if milestone_index as usize >= escrow.milestone_payments.len() {
            return Err(Error::MilestoneNotFound);
        }
        let index = milestone_index as usize;
        let mut payment = escrow.milestone_payments[index];
        if payment.released {
            return Err(Error::MilestoneAlreadyReleased);
        }

        let contract = ctx.current_contract.clone();
        transfer(ctx, &escrow.token, &contract, &escrow.payee, payment.amount_stroops);

        payment.released = true;
        payment.released_at = ctx.timestamp;
        escrow.milestone_payments.set(index, payment);
        escrow.updated_at = ctx.timestamp;

        if all_payments_released(&escrow.milestone_payments) {
            escrow.status = EscrowStatus::FullyReleased;
        } else {
            escrow.status = EscrowStatus::PartiallyReleased;
        }

        events::milestone_released(
            ctx,
            &escrow.shipment_id,
            &caller,
            milestone_index,
            payment.amount_stroops,
        );
        self.save_escrow(escrow);
        let ghost e = old(self)@.unwrap();
        assert(ctx.log() =~= old(ctx).log() + seq![EffectView::RequireAuth(caller)] + seq![
            EffectView::Transfer {
                token: e.token,
                from: old(ctx).current_contract,
                to: e.payee,
                amount: payment.amount_stroops,
            },
            EffectView::Publish(
                EventView::MilestoneReleased {
                    shipment_id: e.shipment_id,
                    caller,
                    index: milestone_index,
                    amount: payment.amount_stroops,
                },
            ),
        ]);
        Ok(())
    }

    /// Pays every milestone not paid yet to the payee, announcing each
    /// payment; the payer or the dispute resolver may do so.
    pub fn release_all(&mut self, ctx: &mut Context, caller: Address) -> (res: Result<(), Error>)
        ensures
            final(ctx).same_ledger(old(ctx)),
            ({
                let t = escrow_step(
                    old(self)@,
                    old(ctx).timestamp,
                    old(ctx).current_contract,
                    EscrowCall::ReleaseAll { caller },
                );
                &&& res == t.result
                &&& final(self)@ == t.state
                &&& final(ctx).log() == old(ctx).log() + t.effects
            }),
    {
        assert(old(ctx).log() + Seq::<EffectView>::empty() =~= old(ctx).log());
        let mut escrow = match self.load_escrow() {
            Ok(e) => e,
            Err(e) => {
                return Err(e);
            },
        };
        ctx.require_auth(&caller);
        assert(ctx.log() =~= old(ctx).log() + seq![EffectView::RequireAuth(caller)]);
        if !same_address(&caller, &escrow.payer) && !same_address(&caller, &escrow.dispute_resolver) {
            return Err(Error::Unauthorized);
        }
        if escrow.status != EscrowStatus::Active && escrow.status != EscrowStatus::PartiallyReleased {
            return Err(Error::EscrowNotActive);
        }

        let contract = ctx.current_contract.clone();
        let now = ctx.timestamp;
        pay_out_and_announce(
            ctx,
            &mut escrow.milestone_payments,
            &escrow.token,
            &contract,
            &escrow.payee,
            &escrow.shipment_id,
            &caller,
        );

        escrow.status = EscrowStatus::FullyReleased;
        escrow.updated_at = now;
        self.save_escrow(escrow);
        Ok(())
    }

    /// Freezes the escrow; the payer or the payee may do so while it is
    /// being released.
    pub fn raise_dispute(&mut self, ctx: &mut Context, caller: Address) -> (res: Result<(), Error>)
        ensures
            final(ctx).same_ledger(old(ctx)),
            ({
                let t = escrow_step(
                    old(self)@,
                    old(ctx).timestamp,
                    old(ctx).current_contract,
                    EscrowCall::RaiseDispute { caller },
                );
                &&& res == t.result
                &&& final(self)@ == t.state
                &&& final(ctx).log() == old(ctx).log() + t.effects
            }),
    {
        assert(old(ctx).log() + Seq::<EffectView>::empty() =~= old(ctx).log());
        let mut escrow = match self.load_escrow() {
            Ok(e) => e,
            Err(e) => {
                return Err(e);
            },
        };
        ctx.require_auth(&caller);
        assert(ctx.log() =~= old(ctx).log() + seq![EffectView::RequireAuth(caller)]);
        if !same_address(&caller, &escrow.payer) && !same_address(&caller, &escrow.payee) {
            return Err(Error::Unauthorized);
        }
        if escrow.status != EscrowStatus::Active && escrow.status != EscrowStatus::PartiallyReleased {
            return Err(Error::EscrowNotActive);
        }

        escrow.status = EscrowStatus::Disputed;
        escrow.updated_at = ctx.timestamp;

        events::dispute_raised(ctx, &escrow.shipment_id, &caller);
        self.save_escrow(escrow);
        Ok(())
    }

    /// Settles the dispute: every payment not made yet goes to the payee if
    /// `release_to_payee`, else back to the payer. Only the dispute resolver
    /// may do so.
    pub fn resolve_dispute(&mut self, ctx: &mut Context, resolver: Address, release_to_payee: bool) -> (res:
        Result<(), Error>)
        ensures
            final(ctx).same_ledger(old(ctx)),
            ({
                let t = escrow_step(
                    old(self)@,
                    old(ctx).timestamp,
                    old(ctx).current_contract,
                    EscrowCall::ResolveDispute { resolver, release_to_payee },
                );
                &&& res == t.result
                &&& final(self)@ == t.state
                &&& final(ctx).log() == old(ctx).log() + t.effects
            }),
    {
        assert(old(ctx).log() + Seq::<EffectView>::empty() =~= old(ctx).log());
        let mut escrow = match self.load_escrow() {
            Ok(e) => e,
            Err(e) => {
                return Err(e);
            },
        };
        ctx.require_auth(&resolver);
        assert(ctx.log() =~= old(ctx).log() + seq![EffectView::RequireAuth(resolver)]);
        if !same_address(&resolver, &escrow.dispute_resolver) {
            return Err(Error::Unauthorized);
        }
        if escrow.status != EscrowStatus::Disputed {
            return Err(Error::DisputeNotActive);
        }

        let contract = ctx.current_contract.clone();
        let now = ctx.timestamp;
        let recipient = if release_to_payee {
            escrow.payee.clone()
        } else {
            escrow.payer.clone()
        };
        pay_out_remaining(ctx, &mut escrow.milestone_payments, &escrow.token, &contract, &recipient);

        if release_to_payee {
            escrow.status = EscrowStatus::FullyReleased;
        } else {
            escrow.status = EscrowStatus::Refunded;
        }
        escrow.updated_at = now;

        events::dispute_resolved(ctx, &escrow.shipment_id, &resolver, release_to_payee);
        self.save_escrow(escrow);
        Ok(())
    }

    /// The escrow.
    pub fn get_escrow(&self) -> (res: Result<Escrow, Error>)
        ensures
            match res {
                Ok(e) => self@ == Some(e@),
                Err(err) => self@ is None && err == Error::NotInitialized,
            },
    {
        self.load_escrow()
    }
}

} // verus!
