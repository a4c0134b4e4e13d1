//! What each step asks for, field by field, and where each answer leads.
//!
//! These laws hold of every stage, also of one that no run comes to.

use crate::key::{key_text, read_key, stored_key_reads_back};
use crate::model::{awaits, command_of, next};
use crate::status::{status_is, status_text, CantDoReason, OrderStatus};
use crate::types::{
    BondSlashReason, Case, CaseView, Command, CommandView, DisputeStatus, Event, EventView,
    MessageAction, Order, OrderMessage, OrderView, Party, Phase, PhaseView, RequestView,
    ServiceError, SettleError, SkipReason, Stage, StageView,
};
use mostro_core::error::MostroError;
use vstd::prelude::*;

verus! {

/// The kind of answer that a stage awaits is that of what it asks for, and
/// every such answer is taken, be it good or bad.
pub proof fn a_stage_awaits_the_answer_to_what_it_asks_for(stage: StageView, event: EventView)
    ensures
        awaits(stage, event) <==> match command_of(stage) {
            None => false,
            Some(Command::LoadOrder { .. }) => event is OrderLoaded,
            Some(Command::CheckAssignment { .. }) => event is AssignmentChecked,
            Some(Command::CheckTakeover { .. }) => event is TakeoverChecked,
            Some(Command::CheckPermission { .. }) => event is PermissionChecked,
            Some(Command::ValidateBonds { .. }) => event is BondsValidated,
            Some(Command::ClaimStatus { .. }) => event is StatusClaimed,
            Some(Command::SettleEscrow { .. }) => event is EscrowSettled,
            Some(Command::Republish { .. }) => event is OrderRepublished,
            Some(Command::ApplyBonds { .. }) => event is BondsApplied,
            Some(_) => event is Performed,
        },
{
}

/// An awaited answer never leaves a stage where it is.
pub proof fn an_awaited_answer_leads_on(stage: StageView, event: EventView)
    requires
        awaits(stage, event),
    ensures
        next(stage, event) != stage,
{
}

/// The order that is loaded is the one that the message names.
pub proof fn the_order_of_the_message_is_loaded(request: RequestView)
    ensures
        command_of(Stage::Loading(request)) == Some(
            Command::LoadOrder::<Seq<char>, Seq<u8>> { id: request.order_id },
        ),
{
}

/// The caller is looked up by the identity that signed the request, never by
/// its trade key, and the admin by the daemon's own key.
pub proof fn the_caller_is_known_by_its_identity(case: CaseView)
    ensures
        command_of(Stage::Handling(Phase::Assignment, case)) == Some(
            Command::CheckAssignment::<Seq<char>, Seq<u8>> {
                solver: key_text(case.request.identity),
                order_id: case.order.id,
            },
        ),
        command_of(Stage::Handling(Phase::Takeover, case)) == Some(
            Command::CheckTakeover::<Seq<char>, Seq<u8>> {
                order_id: case.order.id,
                admin: key_text(case.request.admin),
            },
        ),
        command_of(Stage::Handling(Phase::Permission, case)) == Some(
            Command::CheckPermission::<Seq<char>, Seq<u8>> {
                caller: key_text(case.request.identity),
                admin: key_text(case.request.admin),
                order_id: case.order.id,
            },
        ),
{
}

/// The bonds that are checked and the bonds that are slashed are those of the
/// sides that the message flags, side by side. A message without a resolution
/// flags none.
pub proof fn the_flagged_sides_are_checked_and_slashed(case: CaseView)
    ensures
        command_of(Stage::Handling(Phase::BondCheck, case)) matches Some(
            Command::ValidateBonds { order, resolution },
        ) && order == case.order && match case.request.bond_resolution {
            Some(asked) => resolution.slash_seller == asked.slash_seller && resolution.slash_buyer
                == asked.slash_buyer,
            None => !resolution.slash_seller && !resolution.slash_buyer,
        },
        command_of(Stage::Handling(Phase::Bonds, case)) matches Some(
            Command::ApplyBonds { order, resolution, slash_reason },
        ) && order == case.order && slash_reason == BondSlashReason::LostDispute
            && match case.request.bond_resolution {
            Some(asked) => resolution.slash_seller == asked.slash_seller && resolution.slash_buyer
                == asked.slash_buyer,
            None => !resolution.slash_seller && !resolution.slash_buyer,
        },
{
}

/// The claim moves the order at hand out of dispute, and the release moves it
/// the same way back.
pub proof fn a_release_is_a_claim_turned_round(case: CaseView, cause: Seq<char>)
    ensures
        command_of(Stage::Handling(Phase::Claim, case)) == Some(
            Command::ClaimStatus::<Seq<char>, Seq<u8>> {
                order_id: case.order.id,
                from: OrderStatus::Dispute,
                to: OrderStatus::SettledHoldInvoice,
            },
        ),
        command_of(Stage::Handling(Phase::Release(cause), case)) == Some(
            Command::ClaimStatus::<Seq<char>, Seq<u8>> {
                order_id: case.order.id,
                from: OrderStatus::SettledHoldInvoice,
                to: OrderStatus::Dispute,
            },
        ),
{
}

/// Every service that is handed the order is handed the order at hand, with
/// none of its fields changed.
pub proof fn the_order_at_hand_is_handed_on(case: CaseView, row: usize, total: usize)
    ensures
        command_of(Stage::Handling(Phase::Settle, case)) == Some(
            Command::SettleEscrow::<Seq<char>, Seq<u8>> {
                order: case.order,
                action: MessageAction::AdminSettled,
                is_admin: true,
            },
        ),
        command_of(Stage::Handling(Phase::Republish, case)) == Some(
            Command::Republish::<Seq<char>, Seq<u8>> {
                order: case.order,
                status: OrderStatus::SettledHoldInvoice,
            },
        ),
        command_of(Stage::Handling(Phase::StoreEventId, case)) == Some(
            Command::StoreEventId::<Seq<char>, Seq<u8>> {
                order_id: case.order.id,
                event_id: case.order.event_id,
            },
        ),
        command_of(Stage::Handling(Phase::CloseDispute, case)) == Some(
            Command::CloseDispute::<Seq<char>, Seq<u8>> {
                order: case.order,
                dispute_status: DisputeStatus::Settled,
            },
        ),
        command_of(Stage::Handling(Phase::SlashNotice { row, total }, case)) == Some(
            Command::NotifySlashed::<Seq<char>, Seq<u8>> { order: case.order, row },
        ),
        command_of(Stage::Handling(Phase::MakerBond, case)) == Some(
            Command::CloseMakerBond::<Seq<char>, Seq<u8>> { order: case.order },
        ),
        command_of(Stage::Handling(Phase::Payout, case)) == Some(
            Command::PayBuyer::<Seq<char>, Seq<u8>> {
                order: case.order,
                request_id: case.request.request_id,
            },
        ),
{
}

/// The solver is answered under the request's own id: that a canceled order
/// is acknowledged, at the identity; that the dispute is settled, at the key
/// that the request came from.
pub proof fn the_solver_is_answered(case: CaseView)
    ensures
        command_of(Stage::Handling(Phase::CancelNotice, case)) matches Some(Command::Send(answer))
            && answer.destination == case.request.identity && answer.action
            == MessageAction::CooperativeCancelAccepted && answer.order_id == case.order.id
            && answer.request_id == case.request.request_id && answer.trade_index
            == case.request.trade_index,
        command_of(Stage::Handling(Phase::SenderNotice, case)) matches Some(Command::Send(answer))
            && answer.destination == case.request.sender && answer.action
            == MessageAction::AdminSettled && answer.order_id == case.order.id
            && answer.request_id == case.request.request_id && answer.trade_index
            == case.request.trade_index,
{
}

/// Whether a command tells the holder of a key that the dispute is settled,
/// as a message that answers no request.
pub open spec fn tells_of_the_settlement(
    command: Option<CommandView>,
    case: CaseView,
    key: Seq<u8>,
) -> bool {
    command == Some(
        Command::<Seq<char>, Seq<u8>>::Send(
            OrderMessage {
                request_id: None,
                order_id: case.order.id,
                action: MessageAction::AdminSettled,
                destination: key,
                trade_index: case.request.trade_index,
            },
        ),
    )
}

/// The seller is told at the key in the order's field for the seller, whatever
/// else the order holds. The notice is skipped only for want of that key, or
/// because it cannot be read.
pub proof fn the_seller_is_told_at_its_key(case: CaseView, key: Seq<u8>, reason: SkipReason)
    ensures
        key.len() == 32 && case.order.seller_pubkey == Some(key_text(key))
            ==> tells_of_the_settlement(
            command_of(Stage::Handling(Phase::PartyNotice(Party::Seller), case)),
            case,
            key,
        ),
        tells_of_the_settlement(
            command_of(Stage::Handling(Phase::PartyNotice(Party::Seller), case)),
            case,
            key,
        ) <==> (case.order.seller_pubkey matches Some(text) && read_key(text) == Some(key)),
        command_of(Stage::Handling(Phase::PartyNotice(Party::Seller), case)) == Some(
            Command::SkipNotice::<Seq<char>, Seq<u8>> {
                order_id: case.order.id,
                party: Party::Seller,
                reason,
            },
        ) <==> match reason {
            SkipReason::NoPubkey => case.order.seller_pubkey is None,
            SkipReason::UnparseablePubkey => case.order.seller_pubkey matches Some(text)
                && read_key(text) is None,
        },
{
    if key.len() == 32 {
        stored_key_reads_back(key);
    }
}

/// The buyer is told at the key in the order's field for the buyer, whatever
/// else the order holds. The notice is skipped only for want of that key, or
/// because it cannot be read.
pub proof fn the_buyer_is_told_at_its_key(case: CaseView, key: Seq<u8>, reason: SkipReason)
    ensures
        key.len() == 32 && case.order.buyer_pubkey == Some(key_text(key))
            ==> tells_of_the_settlement(
            command_of(Stage::Handling(Phase::PartyNotice(Party::Buyer), case)),
            case,
            key,
        ),
        tells_of_the_settlement(
            command_of(Stage::Handling(Phase::PartyNotice(Party::Buyer), case)),
            case,
            key,
        ) <==> (case.order.buyer_pubkey matches Some(text) && read_key(text) == Some(key)),
        command_of(Stage::Handling(Phase::PartyNotice(Party::Buyer), case)) == Some(
            Command::SkipNotice::<Seq<char>, Seq<u8>> {
                order_id: case.order.id,
                party: Party::Buyer,
                reason,
            },
        ) <==> match reason {
            SkipReason::NoPubkey => case.order.buyer_pubkey is None,
            SkipReason::UnparseablePubkey => case.order.buyer_pubkey matches Some(text)
                && read_key(text) is None,
        },
{
    if key.len() == 32 {
        stored_key_reads_back(key);
    }
}

/// The two parties are treated alike: with their keys exchanged in the order,
/// their notices are exchanged.
pub proof fn the_parties_are_treated_alike(case: CaseView, other: CaseView, key: Seq<u8>)
    requires
        other.request == case.request,
        other.order == (Order {
            seller_pubkey: case.order.buyer_pubkey,
            buyer_pubkey: case.order.seller_pubkey,
            ..case.order
        }),
    ensures
        tells_of_the_settlement(
            command_of(Stage::Handling(Phase::PartyNotice(Party::Seller), case)),
            case,
            key,
        ) <==> tells_of_the_settlement(
            command_of(Stage::Handling(Phase::PartyNotice(Party::Buyer), other)),
            other,
            key,
        ),
{
}

/// The request stays what it was, and so does the order, but for its
/// republication.
pub proof fn the_case_stays_what_it_was(phase: PhaseView, case: CaseView, event: EventView)
    ensures
        next(Stage::Handling(phase, case), event) matches Stage::Handling(_, after) ==> {
            &&& after.request == case.request
            &&& !(phase is Republish) ==> after.order == case.order
        },
{
}

/// The loaded order is taken on as it is, with the request.
pub proof fn the_loaded_order_is_taken_on(request: RequestView, order: OrderView)
    ensures
        next(Stage::Loading(request), Event::OrderLoaded(Ok(order))) == Stage::Handling(
            Phase::Assignment,
            Case { request, order },
        ),
{
}

/// An error of a service that is asked before the escrow moves ends the
/// request and is handed on as it is.
pub proof fn an_early_error_is_handed_on(
    request: RequestView,
    case: CaseView,
    error: MostroError,
    text: Seq<char>,
)
    ensures
        ({
            let end = Stage::<Seq<char>, Seq<u8>>::Finished(Err(SettleError::Forwarded(error)));
            &&& next(Stage::Loading(request), Event::OrderLoaded(Err(error))) == end
            &&& next(
                Stage::Handling(Phase::Takeover, case),
                Event::TakeoverChecked(Err(error)),
            ) == end
            &&& next(
                Stage::Handling(Phase::Permission, case),
                Event::PermissionChecked(Err(error)),
            ) == end
            &&& next(
                Stage::Handling(Phase::BondCheck, case),
                Event::BondsValidated(Err(error)),
            ) == end
            &&& next(Stage::Handling(Phase::Claim, case), Event::StatusClaimed(Err(error))) == end
        }),
        next(Stage::Handling(Phase::Assignment, case), Event::AssignmentChecked(Err(text)))
            == Stage::<Seq<char>, Seq<u8>>::Finished(
            Err(SettleError::Internal(ServiceError::DbAccessError(text))),
        ),
{
}

/// Only the dispute's solver gets further; anyone else is told whether an
/// admin has taken the dispute over.
pub proof fn only_the_solver_gets_further(case: CaseView)
    ensures
        next(Stage::Handling(Phase::Assignment, case), Event::AssignmentChecked(Ok(true)))
            == Stage::Handling(Phase::Permission, case),
        next(Stage::Handling(Phase::Assignment, case), Event::AssignmentChecked(Ok(false)))
            == Stage::Handling(Phase::Takeover, case),
        next(Stage::Handling(Phase::Takeover, case), Event::TakeoverChecked(Ok(true))) == Stage::<
            Seq<char>,
            Seq<u8>,
        >::Finished(Err(SettleError::CantDo(CantDoReason::DisputeTakenByAdmin))),
        next(Stage::Handling(Phase::Takeover, case), Event::TakeoverChecked(Ok(false)))
            == Stage::<Seq<char>, Seq<u8>>::Finished(
            Err(SettleError::CantDo(CantDoReason::IsNotYourDispute)),
        ),
{
}

/// What becomes of a permitted request is decided by the order's status, and
/// by nothing else.
pub proof fn the_status_decides(case: CaseView)
    ensures
        ({
            let after = next(
                Stage::Handling(Phase::Permission, case),
                Event::PermissionChecked(Ok(())),
            );
            &&& status_is(case.order.status, OrderStatus::CooperativelyCanceled) ==> after
                == Stage::Handling(Phase::CancelNotice, case)
            &&& status_is(case.order.status, OrderStatus::Dispute) && !status_is(
                case.order.status,
                OrderStatus::CooperativelyCanceled,
            ) ==> after == Stage::Handling(Phase::BondCheck, case)
            &&& !status_is(case.order.status, OrderStatus::Dispute) && !status_is(
                case.order.status,
                OrderStatus::CooperativelyCanceled,
            ) ==> after == Stage::<Seq<char>, Seq<u8>>::Finished(
                Err(SettleError::CantDo(CantDoReason::InvalidOrderStatus)),
            )
        }),
{
}

/// A dispute is claimed if exactly one side opened it, whichever that is.
pub proof fn a_dispute_has_one_initiator(case: CaseView)
    ensures
        ({
            let after = next(
                Stage::Handling(Phase::BondCheck, case),
                Event::BondsValidated(Ok(())),
            );
            &&& case.order.seller_dispute && !case.order.buyer_dispute ==> after
                == Stage::Handling(Phase::Claim, case)
            &&& !case.order.seller_dispute && case.order.buyer_dispute ==> after
                == Stage::Handling(Phase::Claim, case)
            &&& case.order.seller_dispute && case.order.buyer_dispute ==> after == Stage::<
                Seq<char>,
                Seq<u8>,
            >::Finished(Err(SettleError::Internal(ServiceError::DisputeEventError)))
            &&& !case.order.seller_dispute && !case.order.buyer_dispute ==> after == Stage::<
                Seq<char>,
                Seq<u8>,
            >::Finished(Err(SettleError::Internal(ServiceError::DisputeEventError)))
        }),
{
}

/// A won claim leads to the settlement, and a lost one to a refusal.
pub proof fn the_claim_decides(case: CaseView)
    ensures
        next(Stage::Handling(Phase::Claim, case), Event::StatusClaimed(Ok(true)))
            == Stage::Handling(Phase::Settle, case),
        next(Stage::Handling(Phase::Claim, case), Event::StatusClaimed(Ok(false))) == Stage::<
            Seq<char>,
            Seq<u8>,
        >::Finished(Err(SettleError::CantDo(CantDoReason::InvalidOrderStatus))),
{
}

/// A settled escrow leads on to the republication. One that is not settled
/// leads to the release, and its failure is what the request ends with,
/// whatever the release is answered.
pub proof fn the_settlement_decides(
    case: CaseView,
    cause: Seq<char>,
    released: Result<bool, MostroError>,
)
    ensures
        next(Stage::Handling(Phase::Settle, case), Event::EscrowSettled(Ok(())))
            == Stage::Handling(Phase::Republish, case),
        next(
            next(Stage::Handling(Phase::Settle, case), Event::EscrowSettled(Err(cause))),
            Event::StatusClaimed(released),
        ) == Stage::<Seq<char>, Seq<u8>>::Finished(
            Err(SettleError::Internal(ServiceError::LnNodeError(cause))),
        ),
        next(Stage::Handling(Phase::Settle, case), Event::EscrowSettled(Err(cause)))
            == Stage::Handling(Phase::Release(cause), case),
{
}

/// A republished order takes the place of the loaded one, as it is, and its
/// event id is stored.
pub proof fn the_republished_order_is_taken_on(case: CaseView, updated: OrderView)
    ensures
        next(Stage::Handling(Phase::Republish, case), Event::OrderRepublished(Ok(updated)))
            == Stage::Handling(
            Phase::StoreEventId,
            Case { request: case.request, order: updated },
        ),
{
}

/// An order that could not be republished is carried on under its new status,
/// with every other field as it was.
pub proof fn an_unpublished_order_is_carried_on(case: CaseView, text: Seq<char>)
    ensures
        next(Stage::Handling(Phase::Republish, case), Event::OrderRepublished(Err(text))) matches
            Stage::Handling(Phase::CloseDispute, after) && {
            &&& after.request == case.request
            &&& after.order.status == status_text(OrderStatus::SettledHoldInvoice)
            &&& after.order.id == case.order.id
            &&& after.order.event_id == case.order.event_id
            &&& after.order.seller_pubkey == case.order.seller_pubkey
            &&& after.order.buyer_pubkey == case.order.buyer_pubkey
            &&& after.order.seller_dispute == case.order.seller_dispute
            &&& after.order.buyer_dispute == case.order.buyer_dispute
        },
{
}

/// A step that is best effort leads to the same stage whether it worked or
/// not; the steps follow each other up to the payment, which ends the request
/// well.
pub proof fn a_best_effort_step_cannot_stop_the_rest(
    case: CaseView,
    res: Result<(), Seq<char>>,
    text: Seq<char>,
)
    ensures
        ({
            let done = Event::Performed(res);
            &&& next(Stage::Handling(Phase::StoreEventId, case), done) == Stage::Handling(
                Phase::CloseDispute,
                case,
            )
            &&& next(Stage::Handling(Phase::CloseDispute, case), done) == Stage::Handling(
                Phase::SenderNotice,
                case,
            )
            &&& next(Stage::Handling(Phase::SenderNotice, case), done) == Stage::Handling(
                Phase::PartyNotice(Party::Seller),
                case,
            )
            &&& next(Stage::Handling(Phase::PartyNotice(Party::Seller), case), done)
                == Stage::Handling(Phase::PartyNotice(Party::Buyer), case)
            &&& next(Stage::Handling(Phase::PartyNotice(Party::Buyer), case), done)
                == Stage::Handling(Phase::Bonds, case)
            &&& next(Stage::Handling(Phase::Bonds, case), Event::BondsApplied(Err(text)))
                == Stage::Handling(Phase::MakerBond, case)
            &&& next(Stage::Handling(Phase::MakerBond, case), done) == Stage::Handling(
                Phase::Payout,
                case,
            )
            &&& next(Stage::Handling(Phase::Payout, case), done) == Stage::<
                Seq<char>,
                Seq<u8>,
            >::Finished(Ok(()))
            &&& next(Stage::Handling(Phase::CancelNotice, case), done) == Stage::<
                Seq<char>,
                Seq<u8>,
            >::Finished(Ok(()))
        }),
{
}

/// The owners of the slashed bonds are told one after the other, from the
/// first to the last, and then the maker's bond is closed.
pub proof fn the_slashed_bonds_are_told_of_in_order(
    case: CaseView,
    row: usize,
    total: usize,
    res: Result<(), Seq<char>>,
)
    ensures
        next(Stage::Handling(Phase::Bonds, case), Event::BondsApplied(Ok(total)))
            == Stage::Handling(
            if total == 0 {
                Phase::MakerBond
            } else {
                Phase::SlashNotice { row: 0, total }
            },
            case,
        ),
        row + 1 < total ==> next(
            Stage::Handling(Phase::SlashNotice { row, total }, case),
            Event::Performed(res),
        ) == Stage::Handling(
            Phase::SlashNotice { row: (row + 1) as usize, total },
            case,
        ),
        row + 1 >= total ==> next(
            Stage::Handling(Phase::SlashNotice { row, total }, case),
            Event::Performed(res),
        ) == Stage::Handling(Phase::MakerBond, case),
{
}

} // verus!
