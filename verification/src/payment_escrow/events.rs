//! The events that the escrow publishes.

use vstd::prelude::*;
use crate::host::{Address, Context, Effect, EffectView, Event, EventView};

verus! {

/// A copy of a byte string.
fn copy_bytes(bytes: &Vec<u8>) -> (res: Vec<u8>)
    ensures
        res@ == bytes@,
{
    let res = bytes.clone();
    assert(res@ =~= bytes@);
    res
}

/// Publishes `FUNDED` with the payer and the amount.
pub fn escrow_funded(ctx: &mut Context, shipment_id: &Vec<u8>, payer: &Address, amount: i128)
    ensures
        final(ctx).same_ledger(old(ctx)),
        final(ctx).log() == old(ctx).log().push(
            EffectView::Publish(
                EventView::EscrowFunded { shipment_id: shipment_id@, payer: *payer, amount },
            ),
        ),
{
    ctx.record(
        Effect::Publish(
            Event::EscrowFunded { shipment_id: copy_bytes(shipment_id), payer: payer.clone(), amount },
        ),
    );
}

/// Publishes `RELEASED` with the caller, the milestone index and the amount.
pub fn milestone_released(
    ctx: &mut Context,
    shipment_id: &Vec<u8>,
    caller: &Address,
    index: u32,
    amount: i128,
)
    ensures
        final(ctx).same_ledger(old(ctx)),
        final(ctx).log() == old(ctx).log().push(
            EffectView::Publish(
                EventView::MilestoneReleased {
                    shipment_id: shipment_id@,
                    caller: *caller,
                    index,
                    amount,
                },
            ),
        ),
{
    ctx.record(
        Effect::Publish(
            Event::MilestoneReleased {
                shipment_id: copy_bytes(shipment_id),
                caller: caller.clone(),
                index,
                amount,
            },
        ),
    );
}

/// Publishes `DISPUTE` with the caller.
pub fn dispute_raised(ctx: &mut Context, shipment_id: &Vec<u8>, caller: &Address)
    ensures
        final(ctx).same_ledger(old(ctx)),
        final(ctx).log() == old(ctx).log().push(
            EffectView::Publish(EventView::DisputeRaised { shipment_id: shipment_id@, caller: *caller }),
        ),
{
    ctx.record(
        Effect::Publish(
            Event::DisputeRaised { shipment_id: copy_bytes(shipment_id), caller: caller.clone() },
        ),
    );
}

/// Publishes `RESOLVED` with the resolver and whether the payee was paid.
pub fn dispute_resolved(ctx: &mut Context, shipment_id: &Vec<u8>, resolver: &Address, to_payee: bool)
    ensures
        final(ctx).same_ledger(old(ctx)),
        final(ctx).log() == old(ctx).log().push(
            EffectView::Publish(
                EventView::DisputeResolved {
                    shipment_id: shipment_id@,
                    resolver: *resolver,
                    to_payee,
                },
            ),
        ),
{
    ctx.record(
        Effect::Publish(
            Event::DisputeResolved {
                shipment_id: copy_bytes(shipment_id),
                resolver: resolver.clone(),
                to_payee,
            },
        ),
    );
}

} // verus!
