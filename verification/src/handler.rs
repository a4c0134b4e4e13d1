//! The handler of the request to settle a dispute.
//!
//! The handler performs nothing itself. A stage says what is to be performed
//! next, and the answer to it leads to the next stage, until the request is
//! finished.

use crate::key::{read_key, PublicKey};
use crate::model::{
    after_bond_check, after_permission, command_of, message, next, party_notice, phase_command,
    phase_next, resolution_of, slash_notices, unpublished,
};
use crate::status::{status_to_string, CantDoReason, OrderStatus};
use crate::types::{
    BondResolution, BondSlashReason, Case, Command, DisputeStatus, Event, MessageAction, Order,
    OrderMessage, Party, Phase, Request, ServiceError, SettleError, SkipReason, Stage,
};
use vstd::prelude::*;

verus! {

impl Request {
    /// The resolution of the bonds that the request stands for.
    pub fn resolution(&self) -> (res: BondResolution)
        ensures
            res == resolution_of(self@),
            self.bond_resolution matches Some(asked) ==> res.slash_seller == asked.slash_seller
                && res.slash_buyer == asked.slash_buyer,
            self.bond_resolution is None ==> !res.slash_seller && !res.slash_buyer,
    {
        match self.bond_resolution {
            Some(resolution) => resolution,
            None => BondResolution { slash_seller: false, slash_buyer: false },
        }
    }
}

impl Case {
    /// A message of the daemon on the case.
    pub fn message(
        &self,
        request_id: Option<u64>,
        action: MessageAction,
        destination: PublicKey,
    ) -> (res: OrderMessage)
        ensures
            res@ == message(self@, request_id, action, destination@),
            res.request_id == request_id,
            res.order_id == self.order.id,
            res.action == action,
            res.destination == destination,
            res.trade_index == self.request.trade_index,
    {
        OrderMessage {
            request_id,
            order_id: self.order.id,
            action,
            destination,
            trade_index: self.request.trade_index,
        }
    }

    /// The settlement notice to a party, or why there is none. A key that
    /// cannot be read is no reason to stop.
    pub fn party_notice(&self, party: Party) -> (res: Command)
        ensures
            res@ == party_notice(self@, party),
            ({
                let pubkey = if party is Seller {
                    self.order.seller_pubkey
                } else {
                    self.order.buyer_pubkey
                };
                match res {
                    Command::Send(notice) => {
                        &&& pubkey is Some
                        &&& read_key(pubkey->0@) == Some(notice.destination@)
                        &&& notice.action == MessageAction::AdminSettled
                        &&& notice.request_id is None
                        &&& notice.order_id == self.order.id
                        &&& notice.trade_index == self.request.trade_index
                    },
                    Command::SkipNotice { order_id, party: skipped, reason } => {
                        &&& order_id == self.order.id
                        &&& skipped == party
                        &&& reason is NoPubkey ==> pubkey is None
                        &&& reason is UnparseablePubkey ==> pubkey is Some && read_key(
                            pubkey->0@,
                        ) is None
                    },
                    _ => false,
                }
            }),
    {
        let pubkey = match party {
            Party::Seller => &self.order.seller_pubkey,
            Party::Buyer => &self.order.buyer_pubkey,
        };
        match pubkey {
            None => Command::SkipNotice {
                order_id: self.order.id,
                party,
                reason: SkipReason::NoPubkey,
            },
            Some(text) => match PublicKey::read(text.as_str()) {
                None => Command::SkipNotice {
                    order_id: self.order.id,
                    party,
                    reason: SkipReason::UnparseablePubkey,
                },
                Some(key) => Command::Send(self.message(None, MessageAction::AdminSettled, key)),
            },
        }
    }

    /// What is asked for in a phase.
    pub fn command(&self, phase: &Phase) -> (res: Command)
        ensures
            res@ == phase_command(phase@, self@),
    {
        let request = &self.request;
        let order_id: u128 = self.order.id;
        match phase {
            Phase::Assignment => Command::CheckAssignment {
                solver: request.identity.text(),
                order_id,
            },
            Phase::Takeover => Command::CheckTakeover { order_id, admin: request.admin.text() },
            Phase::Permission => Command::CheckPermission {
                caller: request.identity.text(),
                admin: request.admin.text(),
                order_id,
            },
            Phase::CancelNotice => Command::Send(
                self.message(
                    request.request_id,
                    MessageAction::CooperativeCancelAccepted,
                    request.identity,
                ),
            ),
            Phase::BondCheck => Command::ValidateBonds {
                order: self.order.clone(),
                resolution: request.resolution(),
            },
            Phase::Claim => Command::ClaimStatus {
                order_id,
                from: OrderStatus::Dispute,
                to: OrderStatus::SettledHoldInvoice,
            },
            Phase::Settle => Command::SettleEscrow {
                order: self.order.clone(),
                action: MessageAction::AdminSettled,
                is_admin: true,
            },
            Phase::Release(_) => Command::ClaimStatus {
                order_id,
                from: OrderStatus::SettledHoldInvoice,
                to: OrderStatus::Dispute,
            },
            Phase::Republish => Command::Republish {
                order: self.order.clone(),
                status: OrderStatus::SettledHoldInvoice,
            },
            Phase::StoreEventId => Command::StoreEventId {
                order_id,
                event_id: self.order.event_id.clone(),
            },
            Phase::CloseDispute => Command::CloseDispute {
                order: self.order.clone(),
                dispute_status: DisputeStatus::Settled,
            },
            Phase::SenderNotice => Command::Send(
                self.message(request.request_id, MessageAction::AdminSettled, request.sender),
            ),
            Phase::PartyNotice(party) => self.party_notice(*party),
            Phase::Bonds => Command::ApplyBonds {
                order: self.order.clone(),
                resolution: request.resolution(),
                slash_reason: BondSlashReason::LostDispute,
            },
            Phase::SlashNotice { row, .. } => Command::NotifySlashed {
                order: self.order.clone(),
                row: *row,
            },
            Phase::MakerBond => Command::CloseMakerBond { order: self.order.clone() },
            Phase::Payout => Command::PayBuyer {
                order: self.order.clone(),
                request_id: request.request_id,
            },
        }
    }

    /// Goes on after the caller was found to be allowed to finalize disputes.
    fn after_permission(self) -> (res: Stage)
        ensures
            res@ == after_permission(self@),
    {
        if self.order.check_status(OrderStatus::CooperativelyCanceled).is_ok() {
            return Stage::Handling(Phase::CancelNotice, self);
        }
        match self.order.check_status(OrderStatus::Dispute) {
            Ok(()) => Stage::Handling(Phase::BondCheck, self),
            Err(cause) => Stage::Finished(Err(SettleError::CantDo(cause))),
        }
    }

    /// Goes on after the bonds were found to be in order. Settling the escrow
    /// cannot be undone, so an ambiguous initiator is turned down before it.
    fn after_bond_check(self) -> (res: Stage)
        ensures
            res@ == after_bond_check(self@),
    {
        match (self.order.seller_dispute, self.order.buyer_dispute) {
            (true, false) | (false, true) => Stage::Handling(Phase::Claim, self),
            _ => Stage::Finished(Err(SettleError::Internal(ServiceError::DisputeEventError))),
        }
    }

    /// Carries the claimed status forward with an order that could not be
    /// republished.
    fn unpublished(self) -> (res: Case)
        ensures
            res@ == unpublished(self@),
    {
        let order = Order {
            status: status_to_string(OrderStatus::SettledHoldInvoice),
            ..self.order
        };
        Case { request: self.request, order }
    }

    /// Goes on with the slashed bond number `row`, or with the maker's bond
    /// once there is none left.
    fn slash_notices(self, row: usize, total: usize) -> (res: Stage)
        ensures
            res@ == slash_notices(self@, row as int, total),
    {
        if row < total {
            Stage::Handling(Phase::SlashNotice { row, total }, self)
        } else {
            Stage::Handling(Phase::MakerBond, self)
        }
    }
}

impl Stage {
    /// The stage of a request that has just come in.
    pub fn begin(request: Request) -> (res: Stage)
        ensures
            res == Stage::<String, PublicKey>::Loading(request),
            res@ == Stage::<Seq<char>, Seq<u8>>::Loading(request@),
    {
        Stage::Loading(request)
    }

    /// What is to be performed next; nothing once all is done.
    pub fn command(&self) -> (res: Option<Command>)
        ensures
            match res {
                Some(command) => Some(command@),
                None => None,
            } == command_of(self@),
    {
        match self {
            Stage::Loading(request) => Some(Command::LoadOrder { id: request.order_id }),
            Stage::Handling(phase, case) => Some(case.command(phase)),
            Stage::Finished(_) => None,
        }
    }
}

/// Goes on in a phase.
fn admin_settle_phase(phase: Phase, case: Case, event: Event) -> (res: Stage)
    ensures
        res@ == phase_next(phase@, case@, event@),
{
    match (phase, event) {
        (Phase::Assignment, Event::AssignmentChecked(res)) => match res {
            Ok(true) => Stage::Handling(Phase::Permission, case),
            Ok(false) => Stage::Handling(Phase::Takeover, case),
            Err(text) => Stage::Finished(
                Err(SettleError::Internal(ServiceError::DbAccessError(text))),
            ),
        },
        (Phase::Takeover, Event::TakeoverChecked(res)) => match res {
            Ok(true) => Stage::Finished(
                Err(SettleError::CantDo(CantDoReason::DisputeTakenByAdmin)),
            ),
            Ok(false) => Stage::Finished(Err(SettleError::CantDo(CantDoReason::IsNotYourDispute))),
            Err(error) => Stage::Finished(Err(SettleError::Forwarded(error))),
        },
        (Phase::Permission, Event::PermissionChecked(res)) => match res {
            Ok(()) => case.after_permission(),
            Err(error) => Stage::Finished(Err(SettleError::Forwarded(error))),
        },
        (Phase::CancelNotice, Event::Performed(_)) => Stage::Finished(Ok(())),
        (Phase::BondCheck, Event::BondsValidated(res)) => match res {
            Ok(()) => case.after_bond_check(),
            Err(error) => Stage::Finished(Err(SettleError::Forwarded(error))),
        },
        (Phase::Claim, Event::StatusClaimed(res)) => match res {
            Ok(true) => Stage::Handling(Phase::Settle, case),
            // The order has left the dispute since it was loaded: the answer
            // is that of the status check, given a moment later.
            Ok(false) => Stage::Finished(
                Err(SettleError::CantDo(CantDoReason::InvalidOrderStatus)),
            ),
            Err(error) => Stage::Finished(Err(SettleError::Forwarded(error))),
        },
        (Phase::Settle, Event::EscrowSettled(res)) => match res {
            Ok(()) => Stage::Handling(Phase::Republish, case),
            Err(text) => Stage::Handling(Phase::Release(text), case),
        },
        (Phase::Release(text), Event::StatusClaimed(_)) => Stage::Finished(
            Err(SettleError::Internal(ServiceError::LnNodeError(text))),
        ),
        // From here on the escrow has moved, and nothing stops the rest.
        (Phase::Republish, Event::OrderRepublished(res)) => match res {
            Ok(updated) => Stage::Handling(
                Phase::StoreEventId,
                Case { request: case.request, order: updated },
            ),
            Err(_) => Stage::Handling(Phase::CloseDispute, case.unpublished()),
        },
        (Phase::StoreEventId, Event::Performed(_)) => Stage::Handling(Phase::CloseDispute, case),
        (Phase::CloseDispute, Event::Performed(_)) => Stage::Handling(Phase::SenderNotice, case),
        (Phase::SenderNotice, Event::Performed(_)) => Stage::Handling(
            Phase::PartyNotice(Party::Seller),
            case,
        ),
        (Phase::PartyNotice(party), Event::Performed(_)) => match party {
            Party::Seller => Stage::Handling(Phase::PartyNotice(Party::Buyer), case),
            Party::Buyer => Stage::Handling(Phase::Bonds, case),
        },
        (Phase::Bonds, Event::BondsApplied(res)) => match res {
            Ok(total) => case.slash_notices(0, total),
            Err(_) => Stage::Handling(Phase::MakerBond, case),
        },
        (Phase::SlashNotice { row, total }, Event::Performed(_)) => if row < total {
            case.slash_notices(row + 1, total)
        } else {
            Stage::Handling(Phase::MakerBond, case)
        },
        (Phase::MakerBond, Event::Performed(_)) => Stage::Handling(Phase::Payout, case),
        (Phase::Payout, Event::Performed(_)) => Stage::Finished(Ok(())),
        (phase, _) => Stage::Handling(phase, case),
    }
}

/// Handles the answer to what a stage asked for.
///
/// An event that does not answer what the stage asks for changes nothing.
pub fn admin_settle_action(stage: Stage, event: Event) -> (res: Stage)
    ensures
        res@ == next(stage@, event@),
{
    match (stage, event) {
        (Stage::Loading(request), Event::OrderLoaded(res)) => match res {
            Ok(order) => Stage::Handling(Phase::Assignment, Case { request, order }),
            Err(error) => Stage::Finished(Err(SettleError::Forwarded(error))),
        },
        (Stage::Handling(phase, case), event) => admin_settle_phase(phase, case, event),
        (stage, _) => stage,
    }
}

} // verus!
