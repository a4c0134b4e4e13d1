//! Runs of the handler against an order book of one order.

use admin_settle::handler::admin_settle_action;
use admin_settle::key::PublicKey;
use admin_settle::status::{CantDoReason, OrderStatus};
use admin_settle::types::{
    BondResolution, BondSlashReason, Command, DisputeStatus, Event, MessageAction, Order,
    OrderMessage, Party, Request, ServiceError, SettleError, SkipReason, Stage,
};
use mostro_core::error::{
    CantDoReason as StoredReason, MostroError, ServiceError as StoredServiceError,
};

const ORDER_ID: u128 = 0x1234_5678;

fn key(byte: u8) -> PublicKey {
    PublicKey { bytes: [byte; 32] }
}

fn seller() -> PublicKey {
    key(0x5e)
}

fn buyer() -> PublicKey {
    key(0xb0)
}

fn admin() -> PublicKey {
    key(0xad)
}

fn solver() -> PublicKey {
    key(0x50)
}

fn trade_key() -> PublicKey {
    key(0x7e)
}

fn text(status: OrderStatus) -> &'static str {
    match status {
        OrderStatus::CooperativelyCanceled => "cooperatively-canceled",
        OrderStatus::Dispute => "dispute",
        OrderStatus::SettledHoldInvoice => "settled-hold-invoice",
    }
}

fn dispute_order() -> Order {
    Order {
        id: ORDER_ID,
        status: "dispute".to_string(),
        event_id: "old-event".to_string(),
        seller_pubkey: Some(seller().text()),
        buyer_pubkey: Some(buyer().text()),
        seller_dispute: false,
        buyer_dispute: false,
    }
}

fn request_by(identity: PublicKey) -> Request {
    Request {
        order_id: Some(ORDER_ID),
        request_id: Some(1),
        trade_index: None,
        bond_resolution: None,
        identity,
        sender: trade_key(),
        admin: admin(),
    }
}

/// The services of the daemon.
struct World {
    order: Option<Order>,
    /// The solver of the dispute, if a dispute is open.
    solver: Option<PublicKey>,
    /// The solvers who may finalize disputes, besides the admin.
    writers: Vec<PublicKey>,
    assignment_error: Option<String>,
    bonds_locked: bool,
    cashu_locked: bool,
    lose_the_claim: bool,
    claim_breaks: bool,
    release_breaks: bool,
    settle_error: Option<String>,
    republish_error: Option<String>,
    bonds: Result<usize, String>,
    /// Every step that is best effort fails.
    all_steps_fail: bool,
    performed: Vec<Command>,
}

impl World {
    fn new(order: Order) -> World {
        World {
            order: Some(order),
            solver: None,
            writers: Vec::new(),
            assignment_error: None,
            bonds_locked: true,
            cashu_locked: false,
            lose_the_claim: false,
            claim_breaks: false,
            release_breaks: false,
            settle_error: None,
            republish_error: None,
            bonds: Ok(0),
            all_steps_fail: false,
            performed: Vec::new(),
        }
    }

    fn assigned_to(mut self, solver: PublicKey) -> World {
        self.solver = Some(solver);
        self
    }

    fn status(&self) -> &str {
        self.order.as_ref().unwrap().status.as_str()
    }

    fn claim(&mut self, from: OrderStatus, to: OrderStatus) -> bool {
        let order = self.order.as_mut().unwrap();
        if order.status == text(from) && !self.cashu_locked {
            order.status = text(to).to_string();
            true
        } else {
            false
        }
    }

    fn broken(&self) -> MostroError {
        MostroError::MostroInternalErr(StoredServiceError::DbAccessError("locked".to_string()))
    }

    fn step(&self) -> Event {
        Event::Performed(if self.all_steps_fail { Err("down".to_string()) } else { Ok(()) })
    }

    fn perform(&mut self, command: &Command) -> Event {
        match command {
            Command::LoadOrder { id } => Event::OrderLoaded(match &self.order {
                Some(order) if *id == Some(order.id) => Ok(order.clone()),
                _ => Err(MostroError::MostroCantDo(StoredReason::NotFound)),
            }),
            Command::CheckAssignment { solver, .. } => {
                Event::AssignmentChecked(match &self.assignment_error {
                    Some(error) => Err(error.clone()),
                    None => Ok(self.solver.map(|key| key.text()).as_ref() == Some(solver)),
                })
            }
            Command::CheckTakeover { admin, .. } => Event::TakeoverChecked(Ok(
                self.solver.map(|key| key.text()).as_ref() == Some(admin)
            )),
            Command::CheckPermission { caller, admin, .. } => {
                let writer = self.writers.iter().any(|key| key.text() == *caller);
                Event::PermissionChecked(if caller == admin || writer {
                    Ok(())
                } else {
                    Err(MostroError::MostroCantDo(StoredReason::NotAuthorized))
                })
            }
            Command::ValidateBonds { .. } => Event::BondsValidated(if self.bonds_locked {
                Ok(())
            } else {
                Err(MostroError::MostroCantDo(StoredReason::InvalidPayload))
            }),
            Command::ClaimStatus { from, to, .. } => {
                let release = *to == OrderStatus::Dispute;
                if if release { self.release_breaks } else { self.claim_breaks } {
                    return Event::StatusClaimed(Err(self.broken()));
                }
                let lost = !release && self.lose_the_claim;
                Event::StatusClaimed(Ok(!lost && self.claim(*from, *to)))
            }
            Command::SettleEscrow { .. } => {
                Event::EscrowSettled(self.settle_error.clone().map_or(Ok(()), Err))
            }
            Command::Republish { order, status } => {
                Event::OrderRepublished(match &self.republish_error {
                    Some(error) => Err(error.clone()),
                    None => {
                        let mut updated = order.clone();
                        updated.status = text(*status).to_string();
                        updated.event_id = "new-event".to_string();
                        Ok(updated)
                    }
                })
            }
            Command::ApplyBonds { .. } => Event::BondsApplied(self.bonds.clone()),
            Command::StoreEventId { .. }
            | Command::CloseDispute { .. }
            | Command::Send(_)
            | Command::SkipNotice { .. }
            | Command::NotifySlashed { .. }
            | Command::CloseMakerBond { .. }
            | Command::PayBuyer { .. } => self.step(),
        }
    }

    fn handle(&mut self, request: Request) -> Result<(), SettleError> {
        let mut stage = Stage::begin(request);
        while let Some(command) = stage.command() {
            let event = self.perform(&command);
            self.performed.push(command);
            stage = admin_settle_action(stage, event);
        }
        match stage {
            Stage::Finished(outcome) => outcome,
            stage => panic!("nothing left to do in {stage:?}"),
        }
    }

    fn settled_the_escrow(&self) -> bool {
        self.performed.iter().any(|command| matches!(command, Command::SettleEscrow { .. }))
    }
}

fn cant_do(reason: CantDoReason) -> Result<(), SettleError> {
    Err(SettleError::CantDo(reason))
}

fn settled_notice(
    destination: PublicKey,
    request_id: Option<u64>,
    trade_index: Option<i64>,
) -> Command {
    Command::Send(OrderMessage {
        request_id,
        order_id: ORDER_ID,
        action: MessageAction::AdminSettled,
        destination,
        trade_index,
    })
}

#[test]
fn fails_when_order_missing() {
    let mut world = World::new(dispute_order());
    world.order = None;
    let result = world.handle(request_by(admin()));
    assert_eq!(
        result,
        Err(SettleError::Forwarded(MostroError::MostroCantDo(StoredReason::NotFound)))
    );
    assert_eq!(world.performed, vec![Command::LoadOrder { id: Some(ORDER_ID) }]);
}

#[test]
fn rejects_caller_not_assigned_and_no_admin_takeover() {
    let mut world = World::new(dispute_order());
    let result = world.handle(request_by(solver()));
    assert_eq!(result, cant_do(CantDoReason::IsNotYourDispute));
    assert_eq!(
        world.performed,
        vec![
            Command::LoadOrder { id: Some(ORDER_ID) },
            Command::CheckAssignment { solver: "50".repeat(32), order_id: ORDER_ID },
            Command::CheckTakeover { order_id: ORDER_ID, admin: "ad".repeat(32) },
        ]
    );
}

#[test]
fn reports_admin_takeover_when_dispute_in_progress_with_admin() {
    let mut world = World::new(dispute_order()).assigned_to(admin());
    let result = world.handle(request_by(solver()));
    assert_eq!(result, cant_do(CantDoReason::DisputeTakenByAdmin));
}

#[test]
fn rejects_assigned_solver_without_write_permission() {
    let mut world = World::new(dispute_order()).assigned_to(solver());
    let result = world.handle(request_by(solver()));
    assert_eq!(
        result,
        Err(SettleError::Forwarded(MostroError::MostroCantDo(StoredReason::NotAuthorized)))
    );
    assert_eq!(
        world.performed.last(),
        Some(&Command::CheckPermission {
            caller: solver().text(),
            admin: admin().text(),
            order_id: ORDER_ID,
        })
    );
}

#[test]
fn cooperatively_cancelled_order_acknowledges_admin() {
    let mut order = dispute_order();
    order.status = "cooperatively-canceled".to_string();
    let mut world = World::new(order).assigned_to(admin());
    let result = world.handle(request_by(admin()));
    assert!(result.is_ok(), "coop-cancel must ack and return Ok: {result:?}");
    assert_eq!(
        world.performed.last(),
        Some(&Command::Send(OrderMessage {
            request_id: Some(1),
            order_id: ORDER_ID,
            action: MessageAction::CooperativeCancelAccepted,
            destination: admin(),
            trade_index: None,
        }))
    );
    assert_eq!(world.performed.len(), 4);
    assert_eq!(world.status(), "cooperatively-canceled");
}

#[test]
fn rejects_order_not_in_dispute() {
    let mut order = dispute_order();
    order.status = "active".to_string();
    let mut world = World::new(order).assigned_to(admin());
    let result = world.handle(request_by(admin()));
    assert_eq!(result, cant_do(CantDoReason::InvalidOrderStatus));
    assert_eq!(world.performed.len(), 3);
}

#[test]
fn rejects_order_with_unknown_status() {
    let mut order = dispute_order();
    order.status = "disputed".to_string();
    let mut world = World::new(order).assigned_to(admin());
    assert_eq!(
        world.handle(request_by(admin())),
        cant_do(CantDoReason::InvalidOrderStatus)
    );
}

#[test]
fn dispute_without_initiator_flag_errors_before_settling() {
    let mut world = World::new(dispute_order()).assigned_to(admin());
    let result = world.handle(request_by(admin()));
    assert!(
        matches!(result, Err(SettleError::Internal(ServiceError::DisputeEventError))),
        "expected the initiator check to reject before the settle, got {result:?}"
    );
    assert!(!world.settled_the_escrow());
    assert_eq!(world.status(), "dispute");
}

#[test]
fn dispute_with_two_initiators_errors_before_settling() {
    let mut order = dispute_order();
    order.seller_dispute = true;
    order.buyer_dispute = true;
    let mut world = World::new(order).assigned_to(admin());
    assert_eq!(
        world.handle(request_by(admin())),
        Err(SettleError::Internal(ServiceError::DisputeEventError))
    );
    assert_eq!(world.performed.len(), 4);
    assert_eq!(world.status(), "dispute");
}

fn seller_dispute() -> World {
    let mut order = dispute_order();
    order.seller_dispute = true;
    World::new(order).assigned_to(admin())
}

#[test]
fn dispute_order_reaches_settle_seam() {
    let mut world = seller_dispute();
    world.settle_error = Some("invalid invoice".to_string());
    let result = world.handle(request_by(admin()));
    assert!(matches!(
        result,
        Err(SettleError::Internal(ServiceError::LnNodeError(_)))
    ));
    assert!(world.settled_the_escrow());
}

#[test]
fn a_lost_claim_refuses_before_the_settle() {
    let mut world = seller_dispute();
    world.lose_the_claim = true;
    world.settle_error = Some("invalid invoice".to_string());
    let result = world.handle(request_by(admin()));
    assert!(
        matches!(result, Err(SettleError::CantDo(CantDoReason::InvalidOrderStatus))),
        "a lost claim must refuse before the settle, got {result:?}"
    );
    assert!(!world.settled_the_escrow());
    assert_eq!(
        world.status(),
        "dispute",
        "the order must be left to whichever path owns the transition"
    );
}

/// Takes a request through the services up to its claim.
fn up_to_the_claim(world: &mut World, request: Request) -> Stage {
    let mut stage = Stage::begin(request);
    while !matches!(stage.command(), Some(Command::ClaimStatus { .. })) {
        let event = world.perform(&stage.command().unwrap());
        stage = admin_settle_action(stage, event);
    }
    stage
}

/// Two requests have both passed the checks when the first of them claims.
#[test]
fn settle_claim_admits_exactly_one_winner() {
    let mut world = seller_dispute();
    let first = up_to_the_claim(&mut world, request_by(admin()));
    let second = up_to_the_claim(&mut world, request_by(admin()));

    let answer = world.perform(&first.command().unwrap());
    assert_eq!(
        answer,
        Event::StatusClaimed(Ok(true)),
        "the first claim against a disputed order must win it"
    );
    let first = admin_settle_action(first, answer);
    assert!(matches!(first.command(), Some(Command::SettleEscrow { .. })));

    let answer = world.perform(&second.command().unwrap());
    assert_eq!(
        answer,
        Event::StatusClaimed(Ok(false)),
        "the second claim must miss — the row has left dispute"
    );
    assert_eq!(
        admin_settle_action(second, answer),
        Stage::Finished(cant_do(CantDoReason::InvalidOrderStatus))
    );
    assert_eq!(world.status(), "settled-hold-invoice");
}

/// The order goes on, by other hands, between a won claim and a later one.
#[test]
fn a_later_claim_misses_whatever_was_written_meanwhile() {
    for status in ["success", "canceled-by-admin"] {
        let mut world = seller_dispute();
        let first = up_to_the_claim(&mut world, request_by(admin()));
        let second = up_to_the_claim(&mut world, request_by(admin()));
        let answer = world.perform(&first.command().unwrap());
        assert_eq!(answer, Event::StatusClaimed(Ok(true)));
        world.order.as_mut().unwrap().status = status.to_string();
        let answer = world.perform(&second.command().unwrap());
        assert_eq!(
            admin_settle_action(second, answer),
            Stage::Finished(cant_do(CantDoReason::InvalidOrderStatus))
        );
        assert_eq!(world.status(), status);
    }
}

#[test]
fn an_order_with_a_locked_cashu_escrow_is_never_settled() {
    let mut world = seller_dispute();
    world.cashu_locked = true;
    for _ in 0..2 {
        assert_eq!(
            world.handle(request_by(admin())),
            cant_do(CantDoReason::InvalidOrderStatus)
        );
        assert!(!world.settled_the_escrow());
        assert_eq!(world.status(), "dispute");
    }
}

/// An admin cancels the order while its escrow fails to settle.
#[test]
fn releasing_a_settle_claim_leaves_other_statuses_alone() {
    let mut world = seller_dispute();
    world.settle_error = Some("invalid invoice".to_string());
    let mut stage = up_to_the_claim(&mut world, request_by(admin()));
    for _ in 0..2 {
        let event = world.perform(&stage.command().unwrap());
        stage = admin_settle_action(stage, event);
    }
    world.order.as_mut().unwrap().status = "canceled-by-admin".to_string();

    let command = stage.command().unwrap();
    assert_eq!(
        command,
        Command::ClaimStatus {
            order_id: ORDER_ID,
            from: OrderStatus::SettledHoldInvoice,
            to: OrderStatus::Dispute,
        }
    );
    let answer = world.perform(&command);
    assert_eq!(
        answer,
        Event::StatusClaimed(Ok(false)),
        "a release against a status this handler does not own must miss"
    );
    assert_eq!(world.status(), "canceled-by-admin");
    assert_eq!(
        admin_settle_action(stage, answer),
        Stage::Finished(Err(SettleError::Internal(ServiceError::LnNodeError(
            "invalid invoice".to_string()
        ))))
    );
}

/// A request that ends with an error sends nothing, and writes nothing but
/// its claim and the release of it.
#[test]
fn an_error_sends_nothing_and_writes_only_the_claim() {
    let mut world = seller_dispute();
    world.settle_error = Some("invalid invoice".to_string());
    assert!(world.handle(request_by(admin())).is_err());
    assert_eq!(world.performed.len(), 7);
    for command in &world.performed {
        assert!(matches!(
            command,
            Command::LoadOrder { .. }
                | Command::CheckAssignment { .. }
                | Command::CheckPermission { .. }
                | Command::ValidateBonds { .. }
                | Command::ClaimStatus { .. }
                | Command::SettleEscrow { .. }
        ));
    }
}

#[test]
fn failed_settle_releases_the_claim() {
    let mut world = seller_dispute();
    world.settle_error = Some("invalid invoice".to_string());
    let result = world.handle(request_by(admin()));
    assert_eq!(
        result,
        Err(SettleError::Internal(ServiceError::LnNodeError("invalid invoice".to_string()))),
        "the failed settle must surface"
    );
    assert_eq!(
        world.performed.last(),
        Some(&Command::ClaimStatus {
            order_id: ORDER_ID,
            from: OrderStatus::SettledHoldInvoice,
            to: OrderStatus::Dispute,
        })
    );
    assert_eq!(
        world.status(),
        "dispute",
        "a failed settle must release the claim so the solver can retry"
    );

    // The solver tries again, and the node is back.
    world.settle_error = None;
    assert_eq!(world.handle(request_by(admin())), Ok(()));
    assert_eq!(world.status(), "settled-hold-invoice");
}

#[test]
fn a_release_that_fails_does_not_hide_the_failed_settle() {
    let mut world = seller_dispute();
    world.settle_error = Some("no route".to_string());
    world.release_breaks = true;
    assert_eq!(
        world.handle(request_by(admin())),
        Err(SettleError::Internal(ServiceError::LnNodeError("no route".to_string())))
    );
    assert_eq!(world.status(), "settled-hold-invoice");
}

#[test]
fn a_claim_that_cannot_be_made_is_handed_on() {
    let mut world = seller_dispute();
    world.claim_breaks = true;
    let error = world.broken();
    assert_eq!(world.handle(request_by(admin())), Err(SettleError::Forwarded(error)));
    assert!(!world.settled_the_escrow());
}

#[test]
fn an_assignment_that_cannot_be_read_is_a_database_error() {
    let mut world = seller_dispute();
    world.assignment_error = Some("disk full".to_string());
    assert_eq!(
        world.handle(request_by(admin())),
        Err(SettleError::Internal(ServiceError::DbAccessError("disk full".to_string())))
    );
}

#[test]
fn a_slash_without_a_locked_bond_is_rejected_before_the_claim() {
    let mut world = seller_dispute();
    world.bonds_locked = false;
    let mut request = request_by(admin());
    let resolution = BondResolution { slash_seller: true, slash_buyer: false };
    request.bond_resolution = Some(resolution);
    assert_eq!(
        world.handle(request),
        Err(SettleError::Forwarded(MostroError::MostroCantDo(StoredReason::InvalidPayload)))
    );
    let mut order = dispute_order();
    order.seller_dispute = true;
    assert_eq!(world.performed.last(), Some(&Command::ValidateBonds { order, resolution }));
    assert_eq!(world.status(), "dispute");
}

#[test]
fn a_settled_dispute_is_followed_through() {
    let mut order = dispute_order();
    order.buyer_dispute = true;
    let mut world = World::new(order).assigned_to(solver());
    world.writers.push(solver());
    world.bonds = Ok(2);
    let resolution = BondResolution { slash_seller: true, slash_buyer: true };
    let mut request = request_by(solver());
    request.bond_resolution = Some(resolution);
    request.trade_index = Some(7);
    assert_eq!(world.handle(request), Ok(()));

    let mut loaded = dispute_order();
    loaded.buyer_dispute = true;
    let mut updated = loaded.clone();
    updated.status = "settled-hold-invoice".to_string();
    updated.event_id = "new-event".to_string();
    assert_eq!(
        world.performed[3..],
        vec![
            Command::ValidateBonds { order: loaded.clone(), resolution },
            Command::ClaimStatus {
                order_id: ORDER_ID,
                from: OrderStatus::Dispute,
                to: OrderStatus::SettledHoldInvoice,
            },
            Command::SettleEscrow {
                order: loaded.clone(),
                action: MessageAction::AdminSettled,
                is_admin: true,
            },
            Command::Republish {
                order: loaded.clone(),
                status: OrderStatus::SettledHoldInvoice,
            },
            Command::StoreEventId {
                order_id: ORDER_ID,
                event_id: "new-event".to_string(),
            },
            Command::CloseDispute {
                order: updated.clone(),
                dispute_status: DisputeStatus::Settled,
            },
            settled_notice(trade_key(), Some(1), Some(7)),
            settled_notice(seller(), None, Some(7)),
            settled_notice(buyer(), None, Some(7)),
            Command::ApplyBonds {
                order: updated.clone(),
                resolution,
                slash_reason: BondSlashReason::LostDispute,
            },
            Command::NotifySlashed { order: updated.clone(), row: 0 },
            Command::NotifySlashed { order: updated.clone(), row: 1 },
            Command::CloseMakerBond { order: updated.clone() },
            Command::PayBuyer { order: updated.clone(), request_id: Some(1) },
        ]
    );

    // The status check turns a second request down.
    world.performed.clear();
    assert_eq!(
        world.handle(request_by(solver())),
        cant_do(CantDoReason::InvalidOrderStatus)
    );
    assert!(!world.settled_the_escrow());
}

/// Whatever is answered on the way, an `Ok` means that the escrow was settled
/// or that the order was cooperatively canceled.
#[test]
fn a_good_end_is_a_settlement_or_an_acknowledgement() {
    for status in ["dispute", "cooperatively-canceled", "active"] {
        for lost in [false, true] {
            for failing in [false, true] {
                let mut world = seller_dispute();
                world.order.as_mut().unwrap().status = status.to_string();
                world.lose_the_claim = lost;
                world.settle_error = failing.then_some("no route".to_string());
                let good = world.handle(request_by(admin())).is_ok();
                let settled = world.settled_the_escrow() && !failing;
                assert_eq!(good, settled || status == "cooperatively-canceled");
            }
        }
    }
}

/// In a run still under way nothing follows the escrow before it is settled.
#[test]
fn nothing_follows_but_a_settled_escrow() {
    let mut world = seller_dispute();
    world.bonds = Ok(1);
    assert_eq!(world.handle(request_by(admin())), Ok(()));
    let settlement = world
        .performed
        .iter()
        .position(|command| matches!(command, Command::SettleEscrow { .. }));
    assert_eq!(settlement, Some(5));
    for command in &world.performed[..6] {
        assert!(!matches!(
            command,
            Command::Republish { .. }
                | Command::StoreEventId { .. }
                | Command::CloseDispute { .. }
                | Command::ApplyBonds { .. }
                | Command::NotifySlashed { .. }
                | Command::CloseMakerBond { .. }
                | Command::PayBuyer { .. }
        ));
    }
}

#[test]
fn nothing_stops_the_rest_once_the_escrow_has_moved() {
    let mut world = seller_dispute();
    world.republish_error = Some("no relay".to_string());
    world.bonds = Err("no bonds".to_string());
    world.all_steps_fail = true;
    let order = world.order.as_mut().unwrap();
    order.seller_pubkey = Some("not a key".to_string());
    order.buyer_pubkey = None;
    assert_eq!(world.handle(request_by(admin())), Ok(()));

    let mut fallback = dispute_order();
    fallback.seller_dispute = true;
    fallback.seller_pubkey = Some("not a key".to_string());
    fallback.buyer_pubkey = None;
    fallback.status = "settled-hold-invoice".to_string();
    assert_eq!(
        world.performed[7..],
        vec![
            Command::CloseDispute {
                order: fallback.clone(),
                dispute_status: DisputeStatus::Settled,
            },
            settled_notice(trade_key(), Some(1), None),
            Command::SkipNotice {
                order_id: ORDER_ID,
                party: Party::Seller,
                reason: SkipReason::UnparseablePubkey,
            },
            Command::SkipNotice {
                order_id: ORDER_ID,
                party: Party::Buyer,
                reason: SkipReason::NoPubkey,
            },
            Command::ApplyBonds {
                order: fallback.clone(),
                resolution: BondResolution { slash_seller: false, slash_buyer: false },
                slash_reason: BondSlashReason::LostDispute,
            },
            Command::CloseMakerBond { order: fallback.clone() },
            Command::PayBuyer { order: fallback, request_id: Some(1) },
        ]
    );
}

#[test]
fn an_event_out_of_turn_changes_nothing() {
    let stage = Stage::begin(request_by(admin()));
    let stage = admin_settle_action(stage, Event::EscrowSettled(Ok(())));
    assert_eq!(stage, Stage::Loading(request_by(admin())));
    let finished = admin_settle_action(
        Stage::Finished(Ok(())),
        Event::StatusClaimed(Ok(true)),
    );
    assert_eq!(finished, Stage::Finished(Ok(())));
    assert_eq!(finished.command(), None);
}

/// The reasons that tell an admin's takeover from a dispute of someone else.
#[test]
fn test_dispute_error_types() {
    let regular_error = StoredReason::IsNotYourDispute;
    assert_eq!(format!("{:?}", regular_error), "IsNotYourDispute");

    let admin_error = StoredReason::DisputeTakenByAdmin;
    assert_eq!(format!("{:?}", admin_error), "DisputeTakenByAdmin");

    let unauthorized_error = StoredReason::NotAuthorized;
    assert_eq!(format!("{:?}", unauthorized_error), "NotAuthorized");

    assert_ne!(regular_error, admin_error);
    assert_ne!(admin_error, unauthorized_error);

    assert_eq!(format!("{:?}", CantDoReason::IsNotYourDispute), "IsNotYourDispute");
    assert_eq!(format!("{:?}", CantDoReason::DisputeTakenByAdmin), "DisputeTakenByAdmin");
    assert_ne!(CantDoReason::IsNotYourDispute, CantDoReason::DisputeTakenByAdmin);
}
