//! What settling a dispute is: what each stage asks for, and where each
//! answer leads.

use crate::key::{key_text, read_key};
use crate::status::{status_is, status_text, CantDoReason, OrderStatus};
use crate::types::{
    BondResolution, BondSlashReason, Case, CaseView, Command, CommandView, DisputeStatus, Event,
    EventView, MessageAction, Order, OrderMessage, OrderView, Party, Phase, PhaseView,
    RequestView, ServiceError, SettleError, SettleErrorView, SkipReason, Stage, StageView,
};
use vstd::prelude::*;

verus! {

/// The resolution of the bonds that a request stands for: where the message
/// carries none, no bond is slashed.
pub open spec fn resolution_of(request: RequestView) -> BondResolution {
    match request.bond_resolution {
        Some(resolution) => resolution,
        None => BondResolution { slash_seller: false, slash_buyer: false },
    }
}

/// A message of the daemon on a case.
pub open spec fn message(
    case: CaseView,
    request_id: Option<u64>,
    action: MessageAction,
    destination: Seq<u8>,
) -> OrderMessage<Seq<u8>> {
    OrderMessage {
        request_id,
        order_id: case.order.id,
        action,
        destination,
        trade_index: case.request.trade_index,
    }
}

/// The text that an order holds for the key of a party.
pub open spec fn party_pubkey(order: OrderView, party: Party) -> Option<Seq<char>> {
    match party {
        Party::Seller => order.seller_pubkey,
        Party::Buyer => order.buyer_pubkey,
    }
}

/// The settlement notice to a party, or why there is none.
pub open spec fn party_notice(case: CaseView, party: Party) -> CommandView {
    let skip = |reason: SkipReason|
        Command::SkipNotice::<Seq<char>, Seq<u8>> { order_id: case.order.id, party, reason };
    match party_pubkey(case.order, party) {
        None => skip(SkipReason::NoPubkey),
        Some(text) => match read_key(text) {
            None => skip(SkipReason::UnparseablePubkey),
            Some(key) => Command::Send(message(case, None, MessageAction::AdminSettled, key)),
        },
    }
}

/// What is asked for in a phase.
pub open spec fn phase_command(phase: PhaseView, case: CaseView) -> CommandView {
    let request = case.request;
    let order = case.order;
    match phase {
        Phase::Assignment => Command::CheckAssignment {
            solver: key_text(request.identity),
            order_id: order.id,
        },
        Phase::Takeover => Command::CheckTakeover {
            order_id: order.id,
            admin: key_text(request.admin),
        },
        Phase::Permission => Command::CheckPermission {
            caller: key_text(request.identity),
            admin: key_text(request.admin),
            order_id: order.id,
        },
        Phase::CancelNotice => Command::Send(
            message(
                case,
                request.request_id,
                MessageAction::CooperativeCancelAccepted,
                request.identity,
            ),
        ),
        Phase::BondCheck => Command::ValidateBonds { order, resolution: resolution_of(request) },
        Phase::Claim => Command::ClaimStatus {
            order_id: order.id,
            from: OrderStatus::Dispute,
            to: OrderStatus::SettledHoldInvoice,
        },
        Phase::Settle => Command::SettleEscrow {
            order,
            action: MessageAction::AdminSettled,
            is_admin: true,
        },
        Phase::Release(_) => Command::ClaimStatus {
            order_id: order.id,
            from: OrderStatus::SettledHoldInvoice,
            to: OrderStatus::Dispute,
        },
        Phase::Republish => Command::Republish { order, status: OrderStatus::SettledHoldInvoice },
        Phase::StoreEventId => Command::StoreEventId {
            order_id: order.id,
            event_id: order.event_id,
        },
        Phase::CloseDispute => Command::CloseDispute {
            order,
            dispute_status: DisputeStatus::Settled,
        },
        Phase::SenderNotice => Command::Send(
            message(case, request.request_id, MessageAction::AdminSettled, request.sender),
        ),
        Phase::PartyNotice(party) => party_notice(case, party),
        Phase::Bonds => Command::ApplyBonds {
            order,
            resolution: resolution_of(request),
            slash_reason: BondSlashReason::LostDispute,
        },
        Phase::SlashNotice { row, .. } => Command::NotifySlashed { order, row },
        Phase::MakerBond => Command::CloseMakerBond { order },
        Phase::Payout => Command::PayBuyer { order, request_id: request.request_id },
    }
}

/// What is asked for in a stage; nothing once all is done.
pub open spec fn command_of(stage: StageView) -> Option<CommandView> {
    match stage {
        Stage::Loading(request) => Some(Command::LoadOrder { id: request.order_id }),
        Stage::Handling(phase, case) => Some(phase_command(phase, case)),
        Stage::Finished(_) => None,
    }
}

/// Whether an event answers what is asked for in a stage.
pub open spec fn awaits(stage: StageView, event: EventView) -> bool {
    match stage {
        Stage::Loading(_) => event is OrderLoaded,
        Stage::Handling(phase, _) => match phase {
            Phase::Assignment => event is AssignmentChecked,
            Phase::Takeover => event is TakeoverChecked,
            Phase::Permission => event is PermissionChecked,
            Phase::BondCheck => event is BondsValidated,
            Phase::Claim => event is StatusClaimed,
            Phase::Settle => event is EscrowSettled,
            Phase::Release(_) => event is StatusClaimed,
            Phase::Republish => event is OrderRepublished,
            Phase::Bonds => event is BondsApplied,
            _ => event is Performed,
        },
        Stage::Finished(_) => false,
    }
}

/// The end of a request that failed.
pub open spec fn failed(error: SettleErrorView) -> StageView {
    Stage::Finished(Err(error))
}

/// The end of a request that is turned down.
pub open spec fn refused(reason: CantDoReason) -> StageView {
    failed(SettleError::CantDo(reason))
}

/// The stage after the caller was found to be allowed to finalize disputes:
/// a cooperatively canceled order is only acknowledged, and any other has to
/// be in dispute.
pub open spec fn after_permission(case: CaseView) -> StageView {
    if status_is(case.order.status, OrderStatus::CooperativelyCanceled) {
        Stage::Handling(Phase::CancelNotice, case)
    } else if status_is(case.order.status, OrderStatus::Dispute) {
        Stage::Handling(Phase::BondCheck, case)
    } else {
        refused(CantDoReason::InvalidOrderStatus)
    }
}

/// The stage after the bonds were found to be in order: the dispute has to
/// have exactly one initiator.
pub open spec fn after_bond_check(case: CaseView) -> StageView {
    if case.order.seller_dispute != case.order.buyer_dispute {
        Stage::Handling(Phase::Claim, case)
    } else {
        failed(SettleError::Internal(ServiceError::DisputeEventError))
    }
}

/// A case whose order could not be republished: the order keeps all but its
/// status, which the claim has already written.
pub open spec fn unpublished(case: CaseView) -> CaseView {
    Case {
        order: Order { status: status_text(OrderStatus::SettledHoldInvoice), ..case.order },
        ..case
    }
}

/// The stage in which the owner of the slashed bond number `row` is told, if
/// there is such a bond, or the next one.
pub open spec fn slash_notices(case: CaseView, row: int, total: usize) -> StageView {
    if row < total {
        Stage::Handling(Phase::SlashNotice { row: row as usize, total }, case)
    } else {
        Stage::Handling(Phase::MakerBond, case)
    }
}

/// Where the answer to what a phase asks for leads.
pub open spec fn phase_next(phase: PhaseView, case: CaseView, event: EventView) -> StageView {
    match (phase, event) {
        (Phase::Assignment, Event::AssignmentChecked(res)) => match res {
            Ok(true) => Stage::Handling(Phase::Permission, case),
            Ok(false) => Stage::Handling(Phase::Takeover, case),
            Err(text) => failed(SettleError::Internal(ServiceError::DbAccessError(text))),
        },
        (Phase::Takeover, Event::TakeoverChecked(res)) => match res {
            Ok(true) => refused(CantDoReason::DisputeTakenByAdmin),
            Ok(false) => refused(CantDoReason::IsNotYourDispute),
            Err(error) => failed(SettleError::Forwarded(error)),
        },
        (Phase::Permission, Event::PermissionChecked(res)) => match res {
            Ok(()) => after_permission(case),
            Err(error) => failed(SettleError::Forwarded(error)),
        },
        (Phase::CancelNotice, Event::Performed(_)) => Stage::Finished(Ok(())),
        (Phase::BondCheck, Event::BondsValidated(res)) => match res {
            Ok(()) => after_bond_check(case),
            Err(error) => failed(SettleError::Forwarded(error)),
        },
        (Phase::Claim, Event::StatusClaimed(res)) => match res {
            Ok(true) => Stage::Handling(Phase::Settle, case),
            Ok(false) => refused(CantDoReason::InvalidOrderStatus),
            Err(error) => failed(SettleError::Forwarded(error)),
        },
        (Phase::Settle, Event::EscrowSettled(res)) => match res {
            Ok(()) => Stage::Handling(Phase::Republish, case),
            Err(text) => Stage::Handling(Phase::Release(text), case),
        },
        (Phase::Release(text), Event::StatusClaimed(_)) => failed(
            SettleError::Internal(ServiceError::LnNodeError(text)),
        ),
        (Phase::Republish, Event::OrderRepublished(res)) => match res {
            Ok(updated) => Stage::Handling(Phase::StoreEventId, Case { order: updated, ..case }),
            Err(_) => Stage::Handling(Phase::CloseDispute, unpublished(case)),
        },
        (Phase::StoreEventId, Event::Performed(_)) => Stage::Handling(Phase::CloseDispute, case),
        (Phase::CloseDispute, Event::Performed(_)) => Stage::Handling(Phase::SenderNotice, case),
        (Phase::SenderNotice, Event::Performed(_)) => Stage::Handling(
            Phase::PartyNotice(Party::Seller),
            case,
        ),
        (Phase::PartyNotice(Party::Seller), Event::Performed(_)) => Stage::Handling(
            Phase::PartyNotice(Party::Buyer),
            case,
        ),
        (Phase::PartyNotice(Party::Buyer), Event::Performed(_)) => Stage::Handling(
            Phase::Bonds,
            case,
        ),
        (Phase::Bonds, Event::BondsApplied(res)) => match res {
            Ok(total) => slash_notices(case, 0, total),
            Err(_) => Stage::Handling(Phase::MakerBond, case),
        },
        (Phase::SlashNotice { row, total }, Event::Performed(_)) => slash_notices(
            case,
            row + 1,
            total,
        ),
        (Phase::MakerBond, Event::Performed(_)) => Stage::Handling(Phase::Payout, case),
        (Phase::Payout, Event::Performed(_)) => Stage::Finished(Ok(())),
        _ => Stage::Handling(phase, case),
    }
}

/// Where an event leads. One that does not answer what the stage asks for
/// changes nothing.
pub open spec fn next(stage: StageView, event: EventView) -> StageView {
    match (stage, event) {
        (Stage::Loading(request), Event::OrderLoaded(res)) => match res {
            Ok(order) => Stage::Handling(Phase::Assignment, Case { request, order }),
            Err(error) => failed(SettleError::Forwarded(error)),
        },
        (Stage::Handling(phase, case), event) => phase_next(phase, case, event),
        _ => stage,
    }
}

} // verus!
