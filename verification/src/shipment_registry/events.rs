//! The events that the registry publishes.

use vstd::prelude::*;
use crate::host::{Address, Context, Effect, EffectView, Event, EventView, ShipmentId};
use crate::shipment_registry::types::ShipmentStatus;

verus! {

/// Publishes `CREATED` with the shipper and the carrier.
pub fn shipment_created(ctx: &mut Context, id: &ShipmentId, shipper: &Address, carrier: &Address)
    ensures
        final(ctx).same_ledger(old(ctx)),
        final(ctx).log() == old(ctx).log().push(
            EffectView::Publish(
                EventView::ShipmentCreated { id: id@, shipper: *shipper, carrier: *carrier },
            ),
        ),
{
    ctx.record(
        Effect::Publish(
            Event::ShipmentCreated { id: *id, shipper: shipper.clone(), carrier: carrier.clone() },
        ),
    );
}

/// Publishes `LOCATION` with the reporter and the coordinates.
pub fn location_updated(
    ctx: &mut Context,
    id: &ShipmentId,
    reporter: &Address,
    latitude: i64,
    longitude: i64,
)
    ensures
        final(ctx).same_ledger(old(ctx)),
        final(ctx).log() == old(ctx).log().push(
            EffectView::Publish(
                EventView::LocationUpdated { id: id@, reporter: *reporter, latitude, longitude },
            ),
        ),
{
    ctx.record(
        Effect::Publish(
            Event::LocationUpdated { id: *id, reporter: reporter.clone(), latitude, longitude },
        ),
    );
}

/// Publishes `MILESTONE` with the index and the confirmer.
pub fn milestone_confirmed(ctx: &mut Context, id: &ShipmentId, index: u32, confirmed_by: &Address)
    ensures
        final(ctx).same_ledger(old(ctx)),
        final(ctx).log() == old(ctx).log().push(
            EffectView::Publish(
                EventView::MilestoneConfirmed { id: id@, index, confirmed_by: *confirmed_by },
            ),
        ),
{
    ctx.record(
        Effect::Publish(
            Event::MilestoneConfirmed { id: *id, index, confirmed_by: confirmed_by.clone() },
        ),
    );
}

/// Publishes `STATUS` with the caller and the new status.
pub fn status_changed(
    ctx: &mut Context,
    id: &ShipmentId,
    caller: &Address,
    status: &ShipmentStatus,
)
    ensures
        final(ctx).same_ledger(old(ctx)),
        final(ctx).log() == old(ctx).log().push(
            EffectView::Publish(EventView::StatusChanged { id: id@, caller: *caller, status: *status }),
        ),
{
    ctx.record(
        Effect::Publish(Event::StatusChanged { id: *id, caller: caller.clone(), status: *status }),
    );
}

/// Publishes `CUSTODY` with the former and the new carrier.
pub fn custody_transferred(ctx: &mut Context, id: &ShipmentId, from: &Address, to: &Address)
    ensures
        final(ctx).same_ledger(old(ctx)),
        final(ctx).log() == old(ctx).log().push(
            EffectView::Publish(EventView::CustodyTransferred { id: id@, from: *from, to: *to }),
        ),
{
    ctx.record(
        Effect::Publish(
            Event::CustodyTransferred { id: *id, from: from.clone(), to: to.clone() },
        ),
    );
}

} // verus!
