use aethertrack::host::{Context, Effect, Event};
use aethertrack::payment_escrow::errors::Error;
use aethertrack::payment_escrow::types::EscrowStatus;
use aethertrack::payment_escrow::PaymentEscrowContract;

fn address(n: u32) -> String {
    format!("G{:0>55}", n)
}

fn escrow_address() -> String {
    format!("C{:0>55}", 9)
}

const PAYER: u32 = 1;
const PAYEE: u32 = 2;
const TOKEN: u32 = 3;
const RESOLVER: u32 = 4;

fn context() -> Context {
    Context::new(100, 7, escrow_address())
}

fn initialized(amounts: Vec<i128>, total: i128) -> (Context, PaymentEscrowContract) {
    let mut ctx = context();
    let mut escrow = PaymentEscrowContract::new();
    escrow
        .initialize(
            &mut ctx,
            vec![0xab; 32],
            address(PAYER),
            address(PAYEE),
            address(TOKEN),
            total,
            amounts,
            address(RESOLVER),
        )
        .unwrap();
    ctx.effects.clear();
    (ctx, escrow)
}

fn funded() -> (Context, PaymentEscrowContract) {
    let (mut ctx, mut escrow) = initialized(vec![300, 700], 1_000);
    escrow.deposit(&mut ctx, 1_000).unwrap();
    ctx.effects.clear();
    (ctx, escrow)
}

/// The (from, to, amount) of every transfer recorded in `ctx`.
fn transfers(ctx: &Context) -> Vec<(String, String, i128)> {
    let mut out = Vec::new();
    for e in ctx.effects.iter() {
        if let Effect::Transfer { token, from, to, amount } = e {
            assert_eq!(*token, address(TOKEN));
            out.push((from.clone(), to.clone(), *amount));
        }
    }
    out
}

#[test]
fn test_initialize_records_escrow() {
    let mut ctx = context();
    let mut escrow = PaymentEscrowContract::new();
    assert_eq!(escrow.get_escrow().unwrap_err(), Error::NotInitialized);
    escrow
        .initialize(
            &mut ctx,
            vec![1, 2, 3],
            address(PAYER),
            address(PAYEE),
            address(TOKEN),
            1_000,
            vec![250, 250, 500],
            address(RESOLVER),
        )
        .unwrap();
    let e = escrow.get_escrow().unwrap();
    assert_eq!(e.shipment_id, vec![1, 2, 3]);
    assert_eq!(e.total_amount, 1_000);
    assert_eq!(e.deposited_amount, 0);
    assert_eq!(e.status, EscrowStatus::Pending);
    assert_eq!(e.milestone_payments.len(), 3);
    assert_eq!(e.milestone_payments[2].amount_stroops, 500);
    assert!(e.milestone_payments.iter().all(|p| !p.released && p.released_at == 0));
    assert_eq!(e.created_at, 100);
    assert_eq!(e.updated_at, 100);
    assert_eq!(e.dispute_resolver, address(RESOLVER));
    assert_eq!(ctx.effects.len(), 1);
    assert!(matches!(&ctx.effects[0], Effect::RequireAuth(a) if *a == address(PAYER)));
}

#[test]
fn test_initialize_errors() {
    let (mut ctx, mut escrow) = initialized(vec![1_000], 1_000);
    let again = escrow.initialize(
        &mut ctx,
        vec![],
        address(PAYER),
        address(PAYEE),
        address(TOKEN),
        1_000,
        vec![1_000],
        address(RESOLVER),
    );
    assert_eq!(again, Err(Error::AlreadyInitialized));

    let cases: Vec<(i128, Vec<i128>, Error)> = vec![
        (0, vec![], Error::ZeroAmount),
        (-5, vec![-5], Error::ZeroAmount),
        (100, vec![50, 0, 50], Error::ZeroAmount),
        (100, vec![150, -50], Error::ZeroAmount),
        (100, vec![50, 40], Error::InvalidMilestoneAmounts),
        (100, vec![], Error::InvalidMilestoneAmounts),
    ];
    for (total, amounts, expected) in cases {
        let mut ctx = context();
        let mut escrow = PaymentEscrowContract::new();
        let result = escrow.initialize(
            &mut ctx,
            vec![],
            address(PAYER),
            address(PAYEE),
            address(TOKEN),
            total,
            amounts,
            address(RESOLVER),
        );
        assert_eq!(result, Err(expected));
        assert!(escrow.get_escrow().is_err());
        assert!(ctx.effects.is_empty());
    }
}

#[test]
fn test_deposit_moves_funds_in() {
    let (mut ctx, mut escrow) = initialized(vec![300, 700], 1_000);
    ctx.timestamp = 150;
    escrow.deposit(&mut ctx, 400).unwrap();
    let e = escrow.get_escrow().unwrap();
    assert_eq!(e.deposited_amount, 400);
    assert_eq!(e.status, EscrowStatus::Active);
    assert_eq!(e.updated_at, 150);
    assert!(matches!(&ctx.effects[0], Effect::RequireAuth(a) if *a == address(PAYER)));
    assert_eq!(transfers(&ctx), vec![(address(PAYER), escrow_address(), 400)]);
    assert!(matches!(&ctx.effects[2],
        Effect::Publish(Event::EscrowFunded { shipment_id, payer, amount: 400 })
            if *shipment_id == vec![0xab; 32] && *payer == address(PAYER)));
    // a second deposit may go past the total
    escrow.deposit(&mut ctx, 700).unwrap();
    assert_eq!(escrow.get_escrow().unwrap().deposited_amount, 1_100);
    assert_eq!(escrow.deposit(&mut ctx, 1), Err(Error::AlreadyFullyFunded));
}

#[test]
fn test_deposit_errors() {
    let mut ctx = context();
    let mut empty = PaymentEscrowContract::new();
    assert_eq!(empty.deposit(&mut ctx, 10), Err(Error::NotInitialized));
    let (mut ctx, mut escrow) = initialized(vec![1_000], 1_000);
    assert_eq!(escrow.deposit(&mut ctx, 0), Err(Error::ZeroAmount));
    assert_eq!(escrow.deposit(&mut ctx, -3), Err(Error::ZeroAmount));
    assert!(ctx.effects.is_empty());
    let (mut ctx, mut escrow) = funded();
    escrow.raise_dispute(&mut ctx, address(PAYEE)).unwrap();
    assert_eq!(escrow.deposit(&mut ctx, 10), Err(Error::EscrowNotActive));
}

#[test]
fn test_release_milestone_pays_the_payee() {
    let (mut ctx, mut escrow) = funded();
    ctx.timestamp = 200;
    escrow.release_milestone(&mut ctx, address(PAYER), 1).unwrap();
    let e = escrow.get_escrow().unwrap();
    assert_eq!(e.status, EscrowStatus::PartiallyReleased);
    assert!(e.milestone_payments[1].released);
    assert_eq!(e.milestone_payments[1].released_at, 200);
    assert!(!e.milestone_payments[0].released);
    assert_eq!(transfers(&ctx), vec![(escrow_address(), address(PAYEE), 700)]);
    assert!(matches!(ctx.effects.last().unwrap(),
        Effect::Publish(Event::MilestoneReleased { index: 1, amount: 700, caller, .. })
            if *caller == address(PAYER)));
    assert_eq!(
        escrow.release_milestone(&mut ctx, address(PAYER), 1),
        Err(Error::MilestoneAlreadyReleased)
    );
    // the dispute resolver may release too; the last one completes the escrow
    escrow.release_milestone(&mut ctx, address(RESOLVER), 0).unwrap();
    assert_eq!(escrow.get_escrow().unwrap().status, EscrowStatus::FullyReleased);
}

#[test]
fn test_release_milestone_errors() {
    let (mut ctx, mut escrow) = initialized(vec![300, 700], 1_000);
    assert_eq!(
        escrow.release_milestone(&mut ctx, address(PAYER), 0),
        Err(Error::EscrowNotActive)
    );
    let (mut ctx, mut escrow) = funded();
    assert_eq!(escrow.release_milestone(&mut ctx, address(PAYEE), 0), Err(Error::Unauthorized));
    assert!(matches!(ctx.effects.last().unwrap(), Effect::RequireAuth(a) if *a == address(PAYEE)));
    assert_eq!(
        escrow.release_milestone(&mut ctx, address(PAYER), 2),
        Err(Error::MilestoneNotFound)
    );
    assert!(transfers(&ctx).is_empty());
    let mut empty = PaymentEscrowContract::new();
    assert_eq!(empty.release_milestone(&mut ctx, address(PAYER), 0), Err(Error::NotInitialized));
}

#[test]
fn test_release_all_pays_what_is_left() {
    let (mut ctx, mut escrow) = initialized(vec![100, 200, 700], 1_000);
    escrow.deposit(&mut ctx, 1_000).unwrap();
    escrow.release_milestone(&mut ctx, address(PAYER), 1).unwrap();
    ctx.effects.clear();
    ctx.timestamp = 300;
    escrow.release_all(&mut ctx, address(RESOLVER)).unwrap();
    assert_eq!(
        transfers(&ctx),
        vec![(escrow_address(), address(PAYEE), 100), (escrow_address(), address(PAYEE), 700)]
    );
    // each payout is announced right after it, with its milestone index
    assert_eq!(ctx.effects.len(), 5);
    assert!(matches!(&ctx.effects[0], Effect::RequireAuth(a) if *a == address(RESOLVER)));
    assert!(matches!(&ctx.effects[2],
        Effect::Publish(Event::MilestoneReleased { index: 0, amount: 100, caller, shipment_id })
            if *caller == address(RESOLVER) && *shipment_id == vec![0xab; 32]));
    assert!(matches!(&ctx.effects[4],
        Effect::Publish(Event::MilestoneReleased { index: 2, amount: 700, .. })));
    let e = escrow.get_escrow().unwrap();
    assert_eq!(e.status, EscrowStatus::FullyReleased);
    assert!(e.milestone_payments.iter().all(|p| p.released));
    assert_eq!(e.milestone_payments[0].released_at, 300);
    assert_eq!(e.milestone_payments[1].released_at, 100);
    // a settled escrow refuses everything
    assert_eq!(escrow.release_all(&mut ctx, address(PAYER)), Err(Error::EscrowNotActive));
    assert_eq!(escrow.raise_dispute(&mut ctx, address(PAYER)), Err(Error::EscrowNotActive));
    assert_eq!(escrow.deposit(&mut ctx, 5), Err(Error::EscrowNotActive));
}

#[test]
fn test_release_all_errors() {
    let (mut ctx, mut escrow) = funded();
    assert_eq!(escrow.release_all(&mut ctx, address(PAYEE)), Err(Error::Unauthorized));
    let (mut ctx, mut escrow) = initialized(vec![1_000], 1_000);
    assert_eq!(escrow.release_all(&mut ctx, address(PAYER)), Err(Error::EscrowNotActive));
    assert!(transfers(&ctx).is_empty());
}

#[test]
fn test_dispute_refunds_the_payer() {
    let (mut ctx, mut escrow) = funded();
    escrow.release_milestone(&mut ctx, address(PAYER), 0).unwrap();
    assert_eq!(escrow.raise_dispute(&mut ctx, address(RESOLVER)), Err(Error::Unauthorized));
    escrow.raise_dispute(&mut ctx, address(PAYEE)).unwrap();
    assert!(matches!(ctx.effects.last().unwrap(),
        Effect::Publish(Event::DisputeRaised { caller, .. }) if *caller == address(PAYEE)));
    assert_eq!(escrow.get_escrow().unwrap().status, EscrowStatus::Disputed);
    // frozen: no release while disputed
    assert_eq!(escrow.release_milestone(&mut ctx, address(PAYER), 1), Err(Error::EscrowNotActive));
    assert_eq!(escrow.release_all(&mut ctx, address(PAYER)), Err(Error::EscrowNotActive));
    assert_eq!(escrow.resolve_dispute(&mut ctx, address(PAYER), false), Err(Error::Unauthorized));
    ctx.effects.clear();
    escrow.resolve_dispute(&mut ctx, address(RESOLVER), false).unwrap();
    assert_eq!(transfers(&ctx), vec![(escrow_address(), address(PAYER), 700)]);
    assert!(matches!(ctx.effects.last().unwrap(),
        Effect::Publish(Event::DisputeResolved { to_payee: false, .. })));
    let e = escrow.get_escrow().unwrap();
    assert_eq!(e.status, EscrowStatus::Refunded);
    assert!(e.milestone_payments.iter().all(|p| p.released));
    assert_eq!(
        escrow.resolve_dispute(&mut ctx, address(RESOLVER), true),
        Err(Error::DisputeNotActive)
    );
}

#[test]
fn test_dispute_resolved_for_the_payee() {
    let (mut ctx, mut escrow) = funded();
    escrow.raise_dispute(&mut ctx, address(PAYER)).unwrap();
    ctx.effects.clear();
    escrow.resolve_dispute(&mut ctx, address(RESOLVER), true).unwrap();
    assert_eq!(
        transfers(&ctx),
        vec![(escrow_address(), address(PAYEE), 300), (escrow_address(), address(PAYEE), 700)]
    );
    assert_eq!(escrow.get_escrow().unwrap().status, EscrowStatus::FullyReleased);
}

#[test]
fn test_dispute_needs_an_active_escrow() {
    let (mut ctx, mut escrow) = initialized(vec![1_000], 1_000);
    assert_eq!(escrow.raise_dispute(&mut ctx, address(PAYER)), Err(Error::EscrowNotActive));
    assert_eq!(
        escrow.resolve_dispute(&mut ctx, address(RESOLVER), true),
        Err(Error::DisputeNotActive)
    );
    let mut empty = PaymentEscrowContract::new();
    assert_eq!(empty.raise_dispute(&mut ctx, address(PAYER)), Err(Error::NotInitialized));
    assert_eq!(
        empty.resolve_dispute(&mut ctx, address(RESOLVER), true),
        Err(Error::NotInitialized)
    );
    assert_eq!(empty.release_all(&mut ctx, address(PAYER)), Err(Error::NotInitialized));
}

#[test]
fn test_total_paid_out_equals_total() {
    let (mut ctx, mut escrow) = initialized(vec![100, 200, 300, 400], 1_000);
    escrow.deposit(&mut ctx, 1_000).unwrap();
    escrow.release_milestone(&mut ctx, address(PAYER), 2).unwrap();
    escrow.raise_dispute(&mut ctx, address(PAYEE)).unwrap();
    escrow.resolve_dispute(&mut ctx, address(RESOLVER), true).unwrap();
    let out: i128 = transfers(&ctx)
        .iter()
        .filter(|(from, _, _)| *from == escrow_address())
        .map(|(_, _, amount)| *amount)
        .sum();
    assert_eq!(out, 1_000);
}

#[test]
fn test_restore_keeps_the_escrow() {
    let (_ctx, escrow) = funded();
    let copy = PaymentEscrowContract::restore(Some(escrow.get_escrow().unwrap()));
    assert_eq!(copy.get_escrow().unwrap().deposited_amount, 1_000);
    assert!(PaymentEscrowContract::restore(None).get_escrow().is_err());
}
