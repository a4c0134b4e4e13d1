//! The data that settling a dispute works on.
//!
//! A type with a parameter `S` holds texts and one with a parameter `K` holds
//! keys. In executable code these are `String` and `PublicKey`, the defaults.
//! In contracts they are the mathematical texts and keys, `Seq<char>` and
//! `Seq<u8>`: the alias whose name ends in `View`.

use crate::key::PublicKey;
use crate::status::{
    ascii_lowercase, is_ascii_text, order_check_status, status_is, status_text,
    unicode_lowercase, CantDoReason, OrderStatus,
};
use mostro_core::error::MostroError;
use vstd::prelude::*;

verus! {

/// Declares `mostro_core::error::MostroError`, the error that the daemon's
/// services answer with. It is carried through unread.
#[verifier::external_type_specification]
#[verifier::external_body]
pub struct ExMostroError(MostroError);

/// What settling a dispute reads of an order.
#[derive(Debug, PartialEq, Eq)]
pub struct Order<S = String> {
    pub id: u128,
    pub status: S,
    /// The id of the event under which the order is published.
    pub event_id: S,
    pub seller_pubkey: Option<S>,
    pub buyer_pubkey: Option<S>,
    /// The seller opened the dispute.
    pub seller_dispute: bool,
    /// The buyer opened the dispute.
    pub buyer_dispute: bool,
}

pub type OrderView = Order<Seq<char>>;

/// The sides whose bond the solver asks to slash.
#[derive(Clone, Copy, Debug, PartialEq, Eq, Structural)]
pub struct BondResolution {
    pub slash_seller: bool,
    pub slash_buyer: bool,
}

/// A solver's request to settle a dispute.
#[derive(Debug, PartialEq, Eq)]
pub struct Request<K = PublicKey> {
    /// The order that the message names.
    pub order_id: Option<u128>,
    pub request_id: Option<u64>,
    pub trade_index: Option<i64>,
    /// The resolution of the bonds that the message carries, if any.
    pub bond_resolution: Option<BondResolution>,
    /// The key that signed the request: the solver's identity.
    pub identity: K,
    /// The trade key that the request came from.
    pub sender: K,
    /// The daemon's own key: the admin.
    pub admin: K,
}

pub type RequestView = Request<Seq<u8>>;

/// An internal error that settling a dispute gives rise to.
#[derive(Debug, PartialEq, Eq)]
pub enum ServiceError<S = String> {
    /// The database could not be read.
    DbAccessError(S),
    /// The dispute's initiator is ambiguous.
    DisputeEventError,
    /// The Lightning node did not settle the escrow.
    LnNodeError(S),
}

/// How settling a dispute fails.
#[derive(Debug, PartialEq, Eq)]
pub enum SettleError<S = String> {
    /// The request is turned down.
    CantDo(CantDoReason),
    /// Something went wrong on the way.
    Internal(ServiceError<S>),
    /// A service answered with an error, which is handed on as it is.
    Forwarded(MostroError),
}

pub type SettleErrorView = SettleError<Seq<char>>;

/// A side of the trade.
#[derive(Clone, Copy, Debug, PartialEq, Eq, Structural)]
pub enum Party {
    Seller,
    Buyer,
}

/// Why a party gets no settlement notice.
#[derive(Clone, Copy, Debug, PartialEq, Eq, Structural)]
pub enum SkipReason {
    /// The order holds no key of the party.
    NoPubkey,
    /// The order's key of the party cannot be read.
    UnparseablePubkey,
}

/// What a message tells its receiver.
#[derive(Clone, Copy, Debug, PartialEq, Eq, Structural)]
pub enum MessageAction {
    CooperativeCancelAccepted,
    AdminSettled,
}

/// The status that a dispute is closed with.
#[derive(Clone, Copy, Debug, PartialEq, Eq, Structural)]
pub enum DisputeStatus {
    Settled,
}

/// Why a bond is slashed.
#[derive(Clone, Copy, Debug, PartialEq, Eq, Structural)]
pub enum BondSlashReason {
    LostDispute,
}

/// A message on an order, without a payload.
#[derive(Debug, PartialEq, Eq)]
pub struct OrderMessage<K = PublicKey> {
    pub request_id: Option<u64>,
    pub order_id: u128,
    pub action: MessageAction,
    pub destination: K,
    pub trade_index: Option<i64>,
}

/// A request together with the order it is on.
#[derive(Debug, PartialEq, Eq)]
pub struct Case<S = String, K = PublicKey> {
    pub request: Request<K>,
    pub order: Order<S>,
}

pub type CaseView = Case<Seq<char>, Seq<u8>>;

/// What is being waited for once the order is known.
#[derive(Debug, PartialEq, Eq)]
pub enum Phase<S = String> {
    /// Whether the caller is the dispute's solver.
    Assignment,
    /// Whether an admin took the dispute over from the caller.
    Takeover,
    /// Whether the caller may finalize disputes.
    Permission,
    /// The answer to the solver that the order was cooperatively canceled.
    CancelNotice,
    /// Whether every bond to be slashed is locked.
    BondCheck,
    /// The move of the order from dispute to settled.
    Claim,
    /// The settlement of the escrow.
    Settle,
    /// The way back from settled to dispute, after this failure to settle.
    Release(S),
    /// The republication of the order.
    Republish,
    /// The storing of the republished order's event id.
    StoreEventId,
    /// The closing of the dispute.
    CloseDispute,
    /// The notice to the sender of the request.
    SenderNotice,
    /// The notice to a party of the trade.
    PartyNotice(Party),
    /// The resolution of the bonds.
    Bonds,
    /// The notice on the slashed bond number `row`, out of `total`.
    SlashNotice { row: usize, total: usize },
    /// The closing of the maker's bond on a range of orders.
    MakerBond,
    /// The payment to the buyer.
    Payout,
}

pub type PhaseView = Phase<Seq<char>>;

/// How far the settling of a dispute has come.
#[derive(Debug, PartialEq, Eq)]
pub enum Stage<S = String, K = PublicKey> {
    /// The order of the request is being loaded.
    Loading(Request<K>),
    /// The order is known.
    Handling(Phase<S>, Case<S, K>),
    /// Nothing is left to do.
    Finished(Result<(), SettleError<S>>),
}

pub type StageView = Stage<Seq<char>, Seq<u8>>;

/// What a service is asked to do.
#[derive(Debug, PartialEq, Eq)]
pub enum Command<S = String, K = PublicKey> {
    /// Load the order of the request.
    LoadOrder { id: Option<u128> },
    /// Tell whether `solver` is assigned to the dispute on the order.
    CheckAssignment { solver: S, order_id: u128 },
    /// Tell whether `admin` has taken over the dispute on the order.
    CheckTakeover { order_id: u128, admin: S },
    /// Tell whether `caller` may finalize the dispute on the order.
    CheckPermission { caller: S, admin: S, order_id: u128 },
    /// Tell whether the bonds that `resolution` slashes are locked.
    ValidateBonds { order: Order<S>, resolution: BondResolution },
    /// Move the order to status `to`, if its status is `from` and no Cashu
    /// escrow is locked for it.
    ClaimStatus { order_id: u128, from: OrderStatus, to: OrderStatus },
    /// Settle the seller's hold invoice.
    SettleEscrow { order: Order<S>, action: MessageAction, is_admin: bool },
    /// Publish the order under `status` again.
    Republish { order: Order<S>, status: OrderStatus },
    /// Store the id of the order's event.
    StoreEventId { order_id: u128, event_id: S },
    /// Close the dispute on the order.
    CloseDispute { order: Order<S>, dispute_status: DisputeStatus },
    /// Queue a message.
    Send(OrderMessage<K>),
    /// Note that a party gets no settlement notice.
    SkipNotice { order_id: u128, party: Party, reason: SkipReason },
    /// Slash or release the bonds on the order.
    ApplyBonds { order: Order<S>, resolution: BondResolution, slash_reason: BondSlashReason },
    /// Tell the owner of the slashed bond number `row` of its forfeiture.
    NotifySlashed { order: Order<S>, row: usize },
    /// Settle or release the maker's bond on a range of orders.
    CloseMakerBond { order: Order<S> },
    /// Pay the buyer.
    PayBuyer { order: Order<S>, request_id: Option<u64> },
}

pub type CommandView = Command<Seq<char>, Seq<u8>>;

/// What a service answers. An answer that is only a text is an error.
#[derive(Debug, PartialEq, Eq)]
pub enum Event<S = String> {
    OrderLoaded(Result<Order<S>, MostroError>),
    AssignmentChecked(Result<bool, S>),
    TakeoverChecked(Result<bool, MostroError>),
    PermissionChecked(Result<(), MostroError>),
    BondsValidated(Result<(), MostroError>),
    /// Whether the order was moved.
    StatusClaimed(Result<bool, MostroError>),
    EscrowSettled(Result<(), S>),
    OrderRepublished(Result<Order<S>, S>),
    /// The number of bonds that are confirmed to be slashed.
    BondsApplied(Result<usize, S>),
    /// A step was taken, or failed; the rest does not depend on which.
    Performed(Result<(), S>),
}

pub type EventView = Event<Seq<char>>;

/// An optional text as a mathematical one.
pub open spec fn optional_text(text: Option<String>) -> Option<Seq<char>> {
    match text {
        Some(text) => Some(text@),
        None => None,
    }
}

/// A result with a text for its error, that text as a mathematical one.
pub open spec fn text_result<T>(res: Result<T, String>) -> Result<T, Seq<char>> {
    match res {
        Ok(value) => Ok(value),
        Err(text) => Err(text@),
    }
}

impl View for Order {
    type V = OrderView;

    open spec fn view(&self) -> OrderView {
        Order {
            id: self.id,
            status: self.status@,
            event_id: self.event_id@,
            seller_pubkey: optional_text(self.seller_pubkey),
            buyer_pubkey: optional_text(self.buyer_pubkey),
            seller_dispute: self.seller_dispute,
            buyer_dispute: self.buyer_dispute,
        }
    }
}

impl View for Request {
    type V = RequestView;

    open spec fn view(&self) -> RequestView {
        Request {
            order_id: self.order_id,
            request_id: self.request_id,
            trade_index: self.trade_index,
            bond_resolution: self.bond_resolution,
            identity: self.identity@,
            sender: self.sender@,
            admin: self.admin@,
        }
    }
}

impl View for ServiceError {
    type V = ServiceError<Seq<char>>;

    open spec fn view(&self) -> ServiceError<Seq<char>> {
        match *self {
            ServiceError::DbAccessError(text) => ServiceError::DbAccessError(text@),
            ServiceError::DisputeEventError => ServiceError::DisputeEventError,
            ServiceError::LnNodeError(text) => ServiceError::LnNodeError(text@),
        }
    }
}

impl View for SettleError {
    type V = SettleErrorView;

    open spec fn view(&self) -> SettleErrorView {
        match *self {
            SettleError::CantDo(reason) => SettleError::CantDo(reason),
            SettleError::Internal(error) => SettleError::Internal(error@),
            SettleError::Forwarded(error) => SettleError::Forwarded(error),
        }
    }
}

impl View for OrderMessage {
    type V = OrderMessage<Seq<u8>>;

    open spec fn view(&self) -> OrderMessage<Seq<u8>> {
        OrderMessage {
            request_id: self.request_id,
            order_id: self.order_id,
            action: self.action,
            destination: self.destination@,
            trade_index: self.trade_index,
        }
    }
}

impl View for Case {
    type V = CaseView;

    open spec fn view(&self) -> CaseView {
        Case { request: self.request@, order: self.order@ }
    }
}

impl View for Phase {
    type V = PhaseView;

    open spec fn view(&self) -> PhaseView {
        match *self {
            Phase::Assignment => Phase::Assignment,
            Phase::Takeover => Phase::Takeover,
            Phase::Permission => Phase::Permission,
            Phase::CancelNotice => Phase::CancelNotice,
            Phase::BondCheck => Phase::BondCheck,
            Phase::Claim => Phase::Claim,
            Phase::Settle => Phase::Settle,
            Phase::Release(cause) => Phase::Release(cause@),
            Phase::Republish => Phase::Republish,
            Phase::StoreEventId => Phase::StoreEventId,
            Phase::CloseDispute => Phase::CloseDispute,
            Phase::SenderNotice => Phase::SenderNotice,
            Phase::PartyNotice(party) => Phase::PartyNotice(party),
            Phase::Bonds => Phase::Bonds,
            Phase::SlashNotice { row, total } => Phase::SlashNotice { row, total },
            Phase::MakerBond => Phase::MakerBond,
            Phase::Payout => Phase::Payout,
        }
    }
}

impl View for Stage {
    type V = StageView;

    open spec fn view(&self) -> StageView {
        match *self {
            Stage::Loading(request) => Stage::Loading(request@),
            Stage::Handling(phase, case) => Stage::Handling(phase@, case@),
            Stage::Finished(Ok(())) => Stage::Finished(Ok(())),
            Stage::Finished(Err(error)) => Stage::Finished(Err(error@)),
        }
    }
}

impl View for Command {
    type V = CommandView;

    open spec fn view(&self) -> CommandView {
        match *self {
            Command::LoadOrder { id } => Command::LoadOrder { id },
            Command::CheckAssignment { solver, order_id } => Command::CheckAssignment {
                solver: solver@,
                order_id,
            },
            Command::CheckTakeover { order_id, admin } => Command::CheckTakeover {
                order_id,
                admin: admin@,
            },
            Command::CheckPermission { caller, admin, order_id } => Command::CheckPermission {
                caller: caller@,
                admin: admin@,
                order_id,
            },
            Command::ValidateBonds { order, resolution } => Command::ValidateBonds {
                order: order@,
                resolution,
            },
            Command::ClaimStatus { order_id, from, to } => Command::ClaimStatus {
                order_id,
                from,
                to,
            },
            Command::SettleEscrow { order, action, is_admin } => Command::SettleEscrow {
                order: order@,
                action,
                is_admin,
            },
            Command::Republish { order, status } => Command::Republish { order: order@, status },
            Command::StoreEventId { order_id, event_id } => Command::StoreEventId {
                order_id,
                event_id: event_id@,
            },
            Command::CloseDispute { order, dispute_status } => Command::CloseDispute {
                order: order@,
                dispute_status,
            },
            Command::Send(message) => Command::Send(message@),
            Command::SkipNotice { order_id, party, reason } => Command::SkipNotice {
                order_id,
                party,
                reason,
            },
            Command::ApplyBonds { order, resolution, slash_reason } => Command::ApplyBonds {
                order: order@,
                resolution,
                slash_reason,
            },
            Command::NotifySlashed { order, row } => Command::NotifySlashed { order: order@, row },
            Command::CloseMakerBond { order } => Command::CloseMakerBond { order: order@ },
            Command::PayBuyer { order, request_id } => Command::PayBuyer {
                order: order@,
                request_id,
            },
        }
    }
}

impl View for Event {
    type V = EventView;

    open spec fn view(&self) -> EventView {
        match *self {
            Event::OrderLoaded(Ok(order)) => Event::OrderLoaded(Ok(order@)),
            Event::OrderLoaded(Err(error)) => Event::OrderLoaded(Err(error)),
            Event::AssignmentChecked(res) => Event::AssignmentChecked(text_result(res)),
            Event::TakeoverChecked(res) => Event::TakeoverChecked(res),
            Event::PermissionChecked(res) => Event::PermissionChecked(res),
            Event::BondsValidated(res) => Event::BondsValidated(res),
            Event::StatusClaimed(res) => Event::StatusClaimed(res),
            Event::EscrowSettled(res) => Event::EscrowSettled(text_result(res)),
            Event::OrderRepublished(Ok(order)) => Event::OrderRepublished(Ok(order@)),
            Event::OrderRepublished(Err(text)) => Event::OrderRepublished(Err(text@)),
            Event::BondsApplied(res) => Event::BondsApplied(text_result(res)),
            Event::Performed(res) => Event::Performed(text_result(res)),
        }
    }
}

impl Clone for Order {
    fn clone(&self) -> (res: Order)
        ensures
            res@ == self@,
    {
        Order {
            id: self.id,
            status: self.status.clone(),
            event_id: self.event_id.clone(),
            seller_pubkey: self.seller_pubkey.clone(),
            buyer_pubkey: self.buyer_pubkey.clone(),
            seller_dispute: self.seller_dispute,
            buyer_dispute: self.buyer_dispute,
        }
    }
}

impl Order {
    /// Checks that the order has a certain status.
    pub fn check_status(&self, status: OrderStatus) -> (res: Result<(), CantDoReason>)
        ensures
            res == (if status_is(self@.status, status) {
                Ok(())
            } else {
                Err(CantDoReason::InvalidOrderStatus)
            }),
            res is Ok <==> status_text(status) == if is_ascii_text(self.status@) {
                ascii_lowercase(self.status@)
            } else {
                unicode_lowercase(self.status@)
            },
    {
        order_check_status(self.status.as_str(), status)
    }
}

/// The mathematical order has every field of the order, each in its place.
pub proof fn an_order_keeps_its_fields(order: Order)
    ensures
        order@.id == order.id,
        order@.status == order.status@,
        order@.event_id == order.event_id@,
        order@.seller_pubkey is Some <==> order.seller_pubkey is Some,
        order.seller_pubkey matches Some(text) ==> order@.seller_pubkey == Some(text@),
        order@.buyer_pubkey is Some <==> order.buyer_pubkey is Some,
        order.buyer_pubkey matches Some(text) ==> order@.buyer_pubkey == Some(text@),
        order@.seller_dispute == order.seller_dispute,
        order@.buyer_dispute == order.buyer_dispute,
{
}

/// The mathematical request has every field of the request, each in its place.
pub proof fn a_request_keeps_its_fields(request: Request)
    ensures
        request@.order_id == request.order_id,
        request@.request_id == request.request_id,
        request@.trade_index == request.trade_index,
        request@.bond_resolution == request.bond_resolution,
        request@.identity == request.identity.bytes@,
        request@.sender == request.sender.bytes@,
        request@.admin == request.admin.bytes@,
{
}

/// The mathematical message has every field of the message, each in its place.
pub proof fn a_message_keeps_its_fields(message: OrderMessage)
    ensures
        message@.request_id == message.request_id,
        message@.order_id == message.order_id,
        message@.action == message.action,
        message@.destination == message.destination.bytes@,
        message@.trade_index == message.trade_index,
{
}

/// The mathematical stage is the stage, with its request, its order and its
/// outcome.
pub proof fn a_stage_keeps_what_it_holds(
    stage: Stage,
    request: Request,
    phase: Phase,
    case: Case,
    error: SettleError,
)
    ensures
        case@.request == case.request@,
        case@.order == case.order@,
        stage == Stage::<String, PublicKey>::Loading(request) ==> stage@ == Stage::<
            Seq<char>,
            Seq<u8>,
        >::Loading(request@),
        stage == Stage::Handling(phase, case) ==> stage@ == Stage::Handling(phase@, case@),
        stage == Stage::<String, PublicKey>::Finished(Ok(())) ==> stage@ == Stage::<
            Seq<char>,
            Seq<u8>,
        >::Finished(Ok(())),
        stage == Stage::<String, PublicKey>::Finished(Err(error)) ==> stage@ == Stage::<
            Seq<char>,
            Seq<u8>,
        >::Finished(Err(error@)),
{
}

/// The mathematical error is the error, with its reason, its text or the error
/// that is handed on.
pub proof fn an_error_keeps_its_cause(reason: CantDoReason, text: String, handed: MostroError)
    ensures
        SettleError::<String>::CantDo(reason)@ == SettleError::<Seq<char>>::CantDo(reason),
        SettleError::<String>::Internal(ServiceError::DbAccessError(text))@
            == SettleError::Internal(ServiceError::DbAccessError(text@)),
        SettleError::<String>::Internal(ServiceError::DisputeEventError)@ == SettleError::<
            Seq<char>,
        >::Internal(ServiceError::DisputeEventError),
        SettleError::<String>::Internal(ServiceError::LnNodeError(text))@
            == SettleError::Internal(ServiceError::LnNodeError(text@)),
        SettleError::<String>::Forwarded(handed)@ == SettleError::<Seq<char>>::Forwarded(handed),
{
}

/// The mathematical phase is the phase.
pub proof fn a_phase_keeps_what_it_holds(phase: Phase)
    ensures
        match phase {
            Phase::Assignment => phase@ is Assignment,
            Phase::Takeover => phase@ is Takeover,
            Phase::Permission => phase@ is Permission,
            Phase::CancelNotice => phase@ is CancelNotice,
            Phase::BondCheck => phase@ is BondCheck,
            Phase::Claim => phase@ is Claim,
            Phase::Settle => phase@ is Settle,
            Phase::Release(cause) => phase@ == Phase::Release(cause@),
            Phase::Republish => phase@ is Republish,
            Phase::StoreEventId => phase@ is StoreEventId,
            Phase::CloseDispute => phase@ is CloseDispute,
            Phase::SenderNotice => phase@ is SenderNotice,
            Phase::PartyNotice(party) => phase@ == Phase::<Seq<char>>::PartyNotice(party),
            Phase::Bonds => phase@ is Bonds,
            Phase::SlashNotice { row, total } => phase@ == (Phase::SlashNotice::<Seq<char>> {
                row,
                total,
            }),
            Phase::MakerBond => phase@ is MakerBond,
            Phase::Payout => phase@ is Payout,
        },
{
}

/// The mathematical command has every field of the command, each in its place.
pub proof fn a_command_keeps_its_fields(command: Command)
    ensures
        match (command, command@) {
            (Command::LoadOrder { id }, Command::LoadOrder { id: same }) => same == id,
            (
                Command::CheckAssignment { solver, order_id },
                Command::CheckAssignment { solver: text, order_id: same },
            ) => text == solver@ && same == order_id,
            (
                Command::CheckTakeover { order_id, admin },
                Command::CheckTakeover { order_id: same, admin: text },
            ) => text == admin@ && same == order_id,
            (
                Command::CheckPermission { caller, admin, order_id },
                Command::CheckPermission { caller: text, admin: admin_text, order_id: same },
            ) => text == caller@ && admin_text == admin@ && same == order_id,
            (
                Command::ValidateBonds { order, resolution },
                Command::ValidateBonds { order: same, resolution: flags },
            ) => same == order@ && flags == resolution,
            (
                Command::ClaimStatus { order_id, from, to },
                Command::ClaimStatus { order_id: same, from: start, to: end },
            ) => same == order_id && start == from && end == to,
            (
                Command::SettleEscrow { order, action, is_admin },
                Command::SettleEscrow { order: same, action: told, is_admin: by_admin },
            ) => same == order@ && told == action && by_admin == is_admin,
            (
                Command::Republish { order, status },
                Command::Republish { order: same, status: published },
            ) => same == order@ && published == status,
            (
                Command::StoreEventId { order_id, event_id },
                Command::StoreEventId { order_id: same, event_id: text },
            ) => same == order_id && text == event_id@,
            (
                Command::CloseDispute { order, dispute_status },
                Command::CloseDispute { order: same, dispute_status: closed },
            ) => same == order@ && closed == dispute_status,
            (Command::Send(message), Command::Send(same)) => same == message@,
            (
                Command::SkipNotice { order_id, party, reason },
                Command::SkipNotice { order_id: same, party: skipped, reason: why },
            ) => same == order_id && skipped == party && why == reason,
            (
                Command::ApplyBonds { order, resolution, slash_reason },
                Command::ApplyBonds { order: same, resolution: flags, slash_reason: why },
            ) => same == order@ && flags == resolution && why == slash_reason,
            (
                Command::NotifySlashed { order, row },
                Command::NotifySlashed { order: same, row: number },
            ) => same == order@ && number == row,
            (Command::CloseMakerBond { order }, Command::CloseMakerBond { order: same }) => same
                == order@,
            (
                Command::PayBuyer { order, request_id },
                Command::PayBuyer { order: same, request_id: id },
            ) => same == order@ && id == request_id,
            _ => false,
        },
{
}

/// The mathematical event is the event, with what was answered.
pub proof fn an_event_keeps_its_answer(event: Event)
    ensures
        match (event, event@) {
            (Event::OrderLoaded(Ok(order)), Event::OrderLoaded(Ok(same))) => same == order@,
            (Event::OrderLoaded(Err(error)), Event::OrderLoaded(Err(same))) => same == error,
            (Event::AssignmentChecked(Ok(answer)), Event::AssignmentChecked(Ok(same))) => same
                == answer,
            (Event::AssignmentChecked(Err(text)), Event::AssignmentChecked(Err(same))) => same
                == text@,
            (Event::TakeoverChecked(answer), Event::TakeoverChecked(same)) => same == answer,
            (Event::PermissionChecked(answer), Event::PermissionChecked(same)) => same == answer,
            (Event::BondsValidated(answer), Event::BondsValidated(same)) => same == answer,
            (Event::StatusClaimed(answer), Event::StatusClaimed(same)) => same == answer,
            (Event::EscrowSettled(Ok(_)), Event::EscrowSettled(Ok(_))) => true,
            (Event::EscrowSettled(Err(text)), Event::EscrowSettled(Err(same))) => same == text@,
            (Event::OrderRepublished(Ok(order)), Event::OrderRepublished(Ok(same))) => same
                == order@,
            (Event::OrderRepublished(Err(text)), Event::OrderRepublished(Err(same))) => same
                == text@,
            (Event::BondsApplied(Ok(total)), Event::BondsApplied(Ok(same))) => same == total,
            (Event::BondsApplied(Err(text)), Event::BondsApplied(Err(same))) => same == text@,
            (Event::Performed(Ok(_)), Event::Performed(Ok(_))) => true,
            (Event::Performed(Err(text)), Event::Performed(Err(same))) => same == text@,
            _ => false,
        },
{
}

} // verus!
