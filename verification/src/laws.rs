//! What holds of every run of the handler, whatever its services answer.
//!
//! A run is the sequence of the answers given so far: the first one answers
//! what is asked for first, and so on.

use crate::key::{key_text, read_key, stored_key_reads_back};
use crate::model::{
    after_permission, awaits, command_of, message, next, party_pubkey, phase_command,
};
use crate::status::{
    status_is, status_text, stored_status_reads_back, CantDoReason, OrderStatus,
};
use crate::types::{
    BondResolution, BondSlashReason, Case, CaseView, Command, CommandView, DisputeStatus, Event,
    EventView, MessageAction, Order, OrderMessage, OrderView, Party, Phase, PhaseView, RequestView,
    ServiceError, SettleError, SettleErrorView, Stage, StageView,
};
use vstd::prelude::*;

verus! {

/// The stage that a request has come to after some events.
pub open spec fn stage_after(request: RequestView, events: Seq<EventView>) -> StageView
    decreases events.len(),
{
    if events.len() == 0 {
        Stage::Loading(request)
    } else {
        next(stage_after(request, events.drop_last()), events.last())
    }
}

/// Whether each event answers what is asked for at its time.
pub open spec fn is_run(request: RequestView, events: Seq<EventView>) -> bool {
    forall|i: int|
        0 <= i < events.len() ==> awaits(stage_after(request, events.take(i)), #[trigger] events[i])
}

/// What was asked for in a run: the entries are answered by the events.
pub open spec fn commands(request: RequestView, events: Seq<EventView>) -> Seq<CommandView> {
    Seq::new(events.len(), |i: int| command_of(stage_after(request, events.take(i)))->0)
}

/// Whether a command changes anything, be it the order, the escrow, the
/// dispute or a bond.
pub open spec fn moves_something(command: CommandView) -> bool {
    match command {
        Command::LoadOrder { .. } => false,
        Command::CheckAssignment { .. } => false,
        Command::CheckTakeover { .. } => false,
        Command::CheckPermission { .. } => false,
        Command::ValidateBonds { .. } => false,
        Command::Send(_) => false,
        Command::SkipNotice { .. } => false,
        _ => true,
    }
}

/// Whether a run has passed every check that comes before the claim: the
/// caller is the dispute's solver and may finalize it, the order is in
/// dispute, the bonds are in order, and exactly one side opened the dispute.
pub open spec fn approved(events: Seq<EventView>, order: OrderView) -> bool {
    &&& events.len() >= 4
    &&& events[0] == Event::OrderLoaded(Ok(order))
    &&& events[1] == Event::<Seq<char>>::AssignmentChecked(Ok(true))
    &&& events[2] matches Event::PermissionChecked(Ok(_))
    &&& !status_is(order.status, OrderStatus::CooperativelyCanceled)
    &&& status_is(order.status, OrderStatus::Dispute)
    &&& events[3] matches Event::BondsValidated(Ok(_))
    &&& order.seller_dispute != order.buyer_dispute
}

/// Whether a run has passed every check and won the claim.
pub open spec fn claimed(events: Seq<EventView>, order: OrderView) -> bool {
    &&& approved(events, order)
    &&& events.len() >= 5
    &&& events[4] == Event::<Seq<char>>::StatusClaimed(Ok(true))
}

/// Whether the escrow was settled in a run.
pub open spec fn settled(events: Seq<EventView>, order: OrderView) -> bool {
    &&& claimed(events, order)
    &&& events.len() >= 6
    &&& events[5] matches Event::EscrowSettled(Ok(_))
}

/// The order that a run has loaded.
pub open spec fn loaded_order(events: Seq<EventView>) -> OrderView {
    events[0]->OrderLoaded_0->Ok_0
}

/// Whether the order was published again, in a run in which the escrow was
/// settled.
pub open spec fn republished(events: Seq<EventView>) -> bool {
    events[6] matches Event::OrderRepublished(Ok(_))
}

/// The case that is closed in a run in which the escrow was settled: its
/// order is the republished one or, failing that, the loaded one with the
/// status that the claim has written.
pub open spec fn closing_case(request: RequestView, events: Seq<EventView>) -> CaseView {
    match events[6] {
        Event::OrderRepublished(Ok(updated)) => Case { request, order: updated },
        _ => Case {
            request,
            order: Order {
                id: loaded_order(events).id,
                status: status_text(OrderStatus::SettledHoldInvoice),
                event_id: loaded_order(events).event_id,
                seller_pubkey: loaded_order(events).seller_pubkey,
                buyer_pubkey: loaded_order(events).buyer_pubkey,
                seller_dispute: loaded_order(events).seller_dispute,
                buyer_dispute: loaded_order(events).buyer_dispute,
            },
        },
    }
}

/// The number of the event that answers the resolution of the bonds, in a run
/// in which the escrow was settled.
pub open spec fn bonds_event(events: Seq<EventView>) -> int {
    if republished(events) {
        12
    } else {
        11
    }
}

/// How many bonds were confirmed to be slashed, in a run in which the escrow
/// was settled.
pub open spec fn slashed_bonds(events: Seq<EventView>) -> nat {
    match events[bonds_event(events)] {
        Event::BondsApplied(Ok(total)) => total as nat,
        _ => 0,
    }
}

/// What is gone through once the order was published again, or could not be.
pub open spec fn closing_phases(republished: bool, slashed: nat) -> Seq<PhaseView> {
    (if republished {
        seq![Phase::StoreEventId]
    } else {
        seq![]
    }) + seq![
        Phase::CloseDispute,
        Phase::SenderNotice,
        Phase::PartyNotice(Party::Seller),
        Phase::PartyNotice(Party::Buyer),
        Phase::Bonds,
    ] + Seq::new(
        slashed,
        |row: int| Phase::SlashNotice { row: row as usize, total: slashed as usize },
    ) + seq![Phase::MakerBond, Phase::Payout]
}

/// What the first `n` events of a run are, judging by the stage that they lead
/// to.
spec fn history(request: RequestView, events: Seq<EventView>, n: int, stage: StageView) -> bool {
    match stage {
        Stage::Loading(loading) => loading == request && n == 0,
        Stage::Handling(phase, case) => {
            &&& case.request == request
            &&& if is_opening(phase) {
                opening_history(events, n, phase, case.order)
            } else {
                &&& settled(events, loaded_order(events))
                &&& n >= 7
                &&& case == closing_case(request, events)
                &&& closing_history(events, n, phase)
            }
        },
        Stage::Finished(Ok(())) => {
            ||| n == 4 && permitted(events) && status_is(
                loaded_order(events).status,
                OrderStatus::CooperativelyCanceled,
            )
            ||| {
                &&& settled(events, loaded_order(events))
                &&& n == bonds_event(events) + 3 + slashed_bonds(events)
            }
        },
        Stage::Finished(Err(error)) => {
            ||| n <= 3
            ||| n == 4 && !(permitted(events) && status_is(
                loaded_order(events).status,
                OrderStatus::CooperativelyCanceled,
            ))
            ||| {
                &&& n == 5
                &&& approved(events, loaded_order(events))
                &&& events[4] != Event::<Seq<char>>::StatusClaimed(Ok(true))
            }
            ||| {
                &&& n == 7
                &&& claimed(events, loaded_order(events))
                &&& events[5] matches Event::EscrowSettled(Err(cause)) && error
                    == SettleError::Internal(ServiceError::LnNodeError(cause))
            }
        },
    }
}

/// Whether a phase comes before the order is published again, or is the way
/// back after a failure to settle.
spec fn is_opening(phase: PhaseView) -> bool {
    match phase {
        Phase::Assignment => true,
        Phase::Takeover => true,
        Phase::Permission => true,
        Phase::CancelNotice => true,
        Phase::BondCheck => true,
        Phase::Claim => true,
        Phase::Settle => true,
        Phase::Release(_) => true,
        Phase::Republish => true,
        _ => false,
    }
}

/// Whether a run has loaded an order of which the caller is the solver, and
/// the caller may finalize disputes.
spec fn permitted(events: Seq<EventView>) -> bool {
    &&& events.len() >= 3
    &&& events[0] matches Event::OrderLoaded(Ok(_))
    &&& events[1] == Event::<Seq<char>>::AssignmentChecked(Ok(true))
    &&& events[2] matches Event::PermissionChecked(Ok(_))
}

/// The history of a run in a phase before the order is published again.
spec fn opening_history(
    events: Seq<EventView>,
    n: int,
    phase: PhaseView,
    order: OrderView,
) -> bool {
    &&& events.len() > 0
    &&& events[0] == Event::OrderLoaded(Ok(order))
    &&& match phase {
        Phase::Assignment => n == 1,
        Phase::Takeover => n == 2,
        Phase::Permission => n == 2 && events[1] == Event::<Seq<char>>::AssignmentChecked(
            Ok(true),
        ),
        Phase::CancelNotice => {
            &&& n == 3
            &&& permitted(events)
            &&& status_is(order.status, OrderStatus::CooperativelyCanceled)
        },
        Phase::BondCheck => {
            &&& n == 3
            &&& permitted(events)
            &&& !status_is(order.status, OrderStatus::CooperativelyCanceled)
            &&& status_is(order.status, OrderStatus::Dispute)
        },
        Phase::Claim => n == 4 && approved(events, order),
        Phase::Settle => n == 5 && claimed(events, order),
        Phase::Release(cause) => {
            &&& n == 6
            &&& claimed(events, order)
            &&& events[5] == Event::EscrowSettled(Err(cause))
        },
        _ => n == 6 && settled(events, order),
    }
}

/// The history of a run in a phase after the order was to be published again.
spec fn closing_history(events: Seq<EventView>, n: int, phase: PhaseView) -> bool {
    let bonds = bonds_event(events);
    match phase {
        Phase::StoreEventId => republished(events) && n == 7,
        Phase::CloseDispute => n == bonds - 4,
        Phase::SenderNotice => n == bonds - 3,
        Phase::PartyNotice(Party::Seller) => n == bonds - 2,
        Phase::PartyNotice(Party::Buyer) => n == bonds - 1,
        Phase::Bonds => n == bonds,
        Phase::SlashNotice { row, total } => {
            &&& n == bonds + 1 + row
            &&& row < total
            &&& total == slashed_bonds(events)
        },
        Phase::MakerBond => n == bonds + 1 + slashed_bonds(events),
        Phase::Payout => n == bonds + 2 + slashed_bonds(events),
        _ => false,
    }
}

/// One more event adds to the history of a run.
proof fn history_grows(request: RequestView, events: Seq<EventView>, n: int, stage: StageView)
    requires
        0 <= n < events.len(),
        history(request, events, n, stage),
        awaits(stage, events[n]),
    ensures
        history(request, events, n + 1, next(stage, events[n])),
{
}

/// Every run has the history of the stage that it has come to, and so has
/// each beginning of it. What is asked for on the way is what the stage asks
/// for.
proof fn history_holds(request: RequestView, events: Seq<EventView>, n: int)
    requires
        is_run(request, events),
        0 <= n <= events.len(),
    ensures
        history(request, events, n, stage_after(request, events.take(n))),
        n == events.len() ==> events.take(n) == events,
        n < events.len() ==> {
            &&& awaits(stage_after(request, events.take(n)), events[n])
            &&& commands(request, events)[n] == command_of(
                stage_after(request, events.take(n)),
            )->0
        },
    decreases n,
{
    if n > 0 {
        history_holds(request, events, n - 1);
        assert(events.take(n).drop_last() =~= events.take(n - 1));
        history_grows(request, events, n - 1, stage_after(request, events.take(n - 1)));
    }
    if n == events.len() {
        assert(events.take(n) =~= events);
    } else {
        assert(awaits(stage_after(request, events.take(n)), events[n]));
    }
}

/// Whether event number `i`, if there is one, answers what is asked for and
/// leads one stage further.
spec fn leads_on(request: RequestView, events: Seq<EventView>, i: int) -> bool {
    i < events.len() ==> {
        &&& awaits(stage_after(request, events.take(i)), events[i])
        &&& stage_after(request, events.take(i + 1)) == next(
            stage_after(request, events.take(i)),
            events[i],
        )
    }
}

/// Each event of a run leads one stage further.
proof fn every_event_leads_on(request: RequestView, events: Seq<EventView>, i: int)
    requires
        is_run(request, events),
        0 <= i,
    ensures
        leads_on(request, events, i),
{
    if i < events.len() {
        assert(events.take(i + 1).drop_last() =~= events.take(i));
    }
}

/// The first events of a run lead on, one by one, to where the run has come.
proof fn first_events_lead_on(request: RequestView, events: Seq<EventView>)
    requires
        is_run(request, events),
    ensures
        stage_after(request, events.take(0)) == Stage::<Seq<char>, Seq<u8>>::Loading(request),
        leads_on(request, events, 0),
        leads_on(request, events, 1),
        leads_on(request, events, 2),
        leads_on(request, events, 3),
        leads_on(request, events, 4),
        leads_on(request, events, 5),
        leads_on(request, events, 6),
        leads_on(request, events, 7),
        events.take(events.len() as int) == events,
{
    assert(events.take(events.len() as int) =~= events);
    every_event_leads_on(request, events, 0);
    every_event_leads_on(request, events, 1);
    every_event_leads_on(request, events, 2);
    every_event_leads_on(request, events, 3);
    every_event_leads_on(request, events, 4);
    every_event_leads_on(request, events, 5);
    every_event_leads_on(request, events, 6);
    every_event_leads_on(request, events, 7);
}

/// The handler asks for something exactly as long as it is not finished.
pub proof fn unfinished_requests_ask_for_something(stage: StageView)
    ensures
        command_of(stage) is None <==> stage is Finished,
{
}

/// An event that does not answer what is asked for changes nothing; above
/// all, a finished request stays finished.
pub proof fn unawaited_events_change_nothing(stage: StageView, event: EventView)
    requires
        !awaits(stage, event),
    ensures
        next(stage, event) == stage,
{
}

/// Nothing is changed before every check has passed: a command that moves
/// something comes after the checks, and the first such command is the claim.
pub proof fn nothing_moves_before_the_checks_pass(
    request: RequestView,
    events: Seq<EventView>,
    i: int,
)
    requires
        is_run(request, events),
        0 <= i < events.len(),
        moves_something(commands(request, events)[i]),
    ensures
        i >= 4,
        approved(events, loaded_order(events)),
        commands(request, events)[4] == (Command::ClaimStatus::<Seq<char>, Seq<u8>> {
            order_id: loaded_order(events).id,
            from: OrderStatus::Dispute,
            to: OrderStatus::SettledHoldInvoice,
        }),
{
    history_holds(request, events, i);
    assert(i >= 4);
    history_holds(request, events, 4);
}

/// The stage in which the escrow is settled, judging by the number of the
/// events so far.
proof fn settlement_stage(request: RequestView, events: Seq<EventView>, i: int, stage: StageView)
    requires
        history(request, events, i, stage),
        command_of(stage) matches Some(command) && command is SettleEscrow,
    ensures
        i == 5,
        claimed(events, loaded_order(events)),
        command_of(stage) == Some(
            Command::SettleEscrow::<Seq<char>, Seq<u8>> {
                order: loaded_order(events),
                action: MessageAction::AdminSettled,
                is_admin: true,
            },
        ),
{
}

/// The escrow is settled at most once, and only after every check has passed
/// and the claim was won.
pub proof fn escrow_is_settled_only_after_a_won_claim(
    request: RequestView,
    events: Seq<EventView>,
    i: int,
)
    requires
        is_run(request, events),
        0 <= i < events.len(),
        commands(request, events)[i] is SettleEscrow,
    ensures
        i == 5,
        claimed(events, loaded_order(events)),
        commands(request, events)[i] == (Command::SettleEscrow::<Seq<char>, Seq<u8>> {
            order: loaded_order(events),
            action: MessageAction::AdminSettled,
            is_admin: true,
        }),
{
    history_holds(request, events, i);
    settlement_stage(request, events, i, stage_after(request, events.take(i)));
}

/// Once every check has passed and the claim is won, the escrow is what is
/// settled next.
pub proof fn a_won_claim_settles_the_escrow(
    request: RequestView,
    events: Seq<EventView>,
    order: OrderView,
)
    requires
        is_run(request, events),
        claimed(events, order),
        events.len() == 5,
    ensures
        command_of(stage_after(request, events)) == Some(
            Command::SettleEscrow::<Seq<char>, Seq<u8>> {
                order,
                action: MessageAction::AdminSettled,
                is_admin: true,
            },
        ),
{
    first_events_lead_on(request, events);
}

/// A party whose key the order holds gets its settlement notice at that key.
pub proof fn a_known_party_is_told(case: CaseView, party: Party, key: Seq<u8>)
    requires
        key.len() == 32,
        party_pubkey(case.order, party) == Some(key_text(key)),
    ensures
        phase_command(Phase::PartyNotice(party), case) == Command::<Seq<char>, Seq<u8>>::Send(
            message(case, None, MessageAction::AdminSettled, key),
        ),
        message(case, None, MessageAction::AdminSettled, key) == (OrderMessage::<Seq<u8>> {
            request_id: None,
            order_id: case.order.id,
            action: MessageAction::AdminSettled,
            destination: key,
            trade_index: case.request.trade_index,
        }),
{
    stored_key_reads_back(key);
}

/// A lost claim is turned down before the escrow is touched, for the reason
/// that an order out of dispute is turned down for.
pub proof fn a_lost_claim_is_turned_down(
    request: RequestView,
    events: Seq<EventView>,
    order: OrderView,
    elsewhere: CaseView,
)
    requires
        is_run(request, events),
        approved(events, order),
        events.len() >= 5,
        events[4] == Event::<Seq<char>>::StatusClaimed(Ok(false)),
        !status_is(elsewhere.order.status, OrderStatus::CooperativelyCanceled),
        !status_is(elsewhere.order.status, OrderStatus::Dispute),
    ensures
        events.len() == 5,
        stage_after(request, events) == Stage::<Seq<char>, Seq<u8>>::Finished(
            Err(SettleError::CantDo(CantDoReason::InvalidOrderStatus)),
        ),
        stage_after(request, events) == after_permission(elsewhere),
{
    first_events_lead_on(request, events);
}

/// A lost claim ends as a request on an order out of dispute ends.
pub proof fn a_lost_claim_ends_as_out_of_dispute(
    request: RequestView,
    events: Seq<EventView>,
    order: OrderView,
    other: RequestView,
    elsewhere: Seq<EventView>,
    out_of_dispute: OrderView,
)
    requires
        is_run(request, events),
        approved(events, order),
        events.len() >= 5,
        events[4] == Event::<Seq<char>>::StatusClaimed(Ok(false)),
        is_run(other, elsewhere),
        elsewhere.len() >= 3,
        elsewhere[0] == Event::OrderLoaded(Ok(out_of_dispute)),
        elsewhere[2] matches Event::PermissionChecked(Ok(_)),
        !status_is(out_of_dispute.status, OrderStatus::CooperativelyCanceled),
        !status_is(out_of_dispute.status, OrderStatus::Dispute),
    ensures
        events.len() == 5,
        stage_after(request, events) == Stage::<Seq<char>, Seq<u8>>::Finished(
            Err(SettleError::CantDo(CantDoReason::InvalidOrderStatus)),
        ),
        elsewhere.len() == 3,
        stage_after(other, elsewhere) == stage_after(request, events),
{
    first_events_lead_on(request, events);
    first_events_lead_on(other, elsewhere);
}

/// A dispute with no initiator, or with two, is turned down before the claim.
pub proof fn an_ambiguous_initiator_is_turned_down(
    request: RequestView,
    events: Seq<EventView>,
    order: OrderView,
)
    requires
        is_run(request, events),
        events.len() >= 4,
        events[0] == Event::OrderLoaded(Ok(order)),
        events[3] matches Event::BondsValidated(Ok(_)),
        order.seller_dispute == order.buyer_dispute,
    ensures
        events.len() == 4,
        stage_after(request, events) == Stage::<Seq<char>, Seq<u8>>::Finished(
            Err(SettleError::Internal(ServiceError::DisputeEventError)),
        ),
{
    first_events_lead_on(request, events);
}

/// A cooperatively canceled order is acknowledged to the solver, and nothing
/// else is done about it.
pub proof fn a_canceled_order_is_only_acknowledged(
    request: RequestView,
    events: Seq<EventView>,
    order: OrderView,
)
    requires
        is_run(request, events),
        events.len() >= 4,
        events[0] == Event::OrderLoaded(Ok(order)),
        events[2] matches Event::PermissionChecked(Ok(_)),
        status_is(order.status, OrderStatus::CooperativelyCanceled),
    ensures
        events.len() == 4,
        commands(request, events)[3] == Command::<Seq<char>, Seq<u8>>::Send(
            OrderMessage {
                request_id: request.request_id,
                order_id: order.id,
                action: MessageAction::CooperativeCancelAccepted,
                destination: request.identity,
                trade_index: request.trade_index,
            },
        ),
        forall|i: int|
            0 <= i < 3 ==> !(#[trigger] commands(request, events)[i] is Send) && !moves_something(
                commands(request, events)[i],
            ),
        stage_after(request, events) == Stage::<Seq<char>, Seq<u8>>::Finished(Ok(())),
{
    first_events_lead_on(request, events);
}

/// A caller who is not the dispute's solver is turned down, and learns
/// whether an admin has taken the dispute over.
pub proof fn a_stranger_is_turned_down(
    request: RequestView,
    events: Seq<EventView>,
    taken_over: bool,
)
    requires
        is_run(request, events),
        events.len() >= 3,
        events[1] == Event::<Seq<char>>::AssignmentChecked(Ok(false)),
        events[2] == Event::<Seq<char>>::TakeoverChecked(Ok(taken_over)),
    ensures
        events.len() == 3,
        stage_after(request, events) == Stage::<Seq<char>, Seq<u8>>::Finished(
            Err(
                SettleError::CantDo(
                    if taken_over {
                        CantDoReason::DisputeTakenByAdmin
                    } else {
                        CantDoReason::IsNotYourDispute
                    },
                ),
            ),
        ),
{
    first_events_lead_on(request, events);
}

/// An order that is stored as settled cannot be settled again: the request is
/// turned down before anything moves.
pub proof fn a_settled_order_is_not_settled_again(
    request: RequestView,
    events: Seq<EventView>,
    order: OrderView,
)
    requires
        is_run(request, events),
        events.len() >= 3,
        events[0] == Event::OrderLoaded(Ok(order)),
        events[2] matches Event::PermissionChecked(Ok(_)),
        order.status == status_text(OrderStatus::SettledHoldInvoice),
    ensures
        events.len() == 3,
        stage_after(request, events) == Stage::<Seq<char>, Seq<u8>>::Finished(
            Err(SettleError::CantDo(CantDoReason::InvalidOrderStatus)),
        ),
{
    stored_status_reads_back(OrderStatus::SettledHoldInvoice, OrderStatus::CooperativelyCanceled);
    stored_status_reads_back(OrderStatus::SettledHoldInvoice, OrderStatus::Dispute);
    first_events_lead_on(request, events);
}

/// After a failure to settle, the claim is given back, only if the status is
/// still the claimed one, and the failure is what the request ends with,
/// whatever becomes of giving back.
pub proof fn a_failed_settlement_gives_the_claim_back(
    request: RequestView,
    events: Seq<EventView>,
    order: OrderView,
    cause: Seq<char>,
)
    requires
        is_run(request, events),
        claimed(events, order),
        events.len() >= 6,
        events[5] == Event::EscrowSettled(Err(cause)),
    ensures
        events.len() <= 7,
        command_of(stage_after(request, events.take(6))) == Some(
            Command::ClaimStatus::<Seq<char>, Seq<u8>> {
                order_id: order.id,
                from: OrderStatus::SettledHoldInvoice,
                to: OrderStatus::Dispute,
            },
        ),
        events.len() == 7 ==> stage_after(request, events) == Stage::<Seq<char>, Seq<u8>>::Finished(
            Err(SettleError::Internal(ServiceError::LnNodeError(cause))),
        ),
{
    first_events_lead_on(request, events);
}

/// Whether a command only asks, or is the settlement of the escrow, or the
/// claim on an order or its release. Such a command sends no message.
pub open spec fn asks_claims_or_settles(command: CommandView, order_id: u128) -> bool {
    match command {
        Command::LoadOrder { .. } => true,
        Command::CheckAssignment { .. } => true,
        Command::CheckTakeover { .. } => true,
        Command::CheckPermission { .. } => true,
        Command::ValidateBonds { .. } => true,
        Command::SettleEscrow { .. } => true,
        Command::ClaimStatus { order_id: claimed_id, from, to } => {
            &&& claimed_id == order_id
            &&& {
                ||| from == OrderStatus::Dispute && to == OrderStatus::SettledHoldInvoice
                ||| from == OrderStatus::SettledHoldInvoice && to == OrderStatus::Dispute
            }
        },
        _ => false,
    }
}

/// A request that ends with an error has not moved the escrow. Either it has
/// won no claim and never tried to settle, or settling failed and the claim
/// was given back. It has sent no message and written nothing but the claim
/// and its release.
pub proof fn an_error_leaves_the_escrow_alone(
    request: RequestView,
    events: Seq<EventView>,
    error: SettleErrorView,
)
    requires
        is_run(request, events),
        stage_after(request, events) == Stage::<Seq<char>, Seq<u8>>::Finished(Err(error)),
    ensures
        !settled(events, loaded_order(events)),
        claimed(events, loaded_order(events)) ==> {
            &&& events.len() == 7
            &&& events[5] matches Event::EscrowSettled(Err(cause)) && error
                == SettleError::Internal(ServiceError::LnNodeError(cause))
            &&& commands(request, events)[6] == (Command::ClaimStatus::<Seq<char>, Seq<u8>> {
                order_id: loaded_order(events).id,
                from: OrderStatus::SettledHoldInvoice,
                to: OrderStatus::Dispute,
            })
        },
        !claimed(events, loaded_order(events)) ==> forall|i: int|
            0 <= i < events.len() ==> !(#[trigger] commands(request, events)[i] is SettleEscrow),
        forall|i: int|
            0 <= i < events.len() ==> asks_claims_or_settles(
                #[trigger] commands(request, events)[i],
                loaded_order(events).id,
            ),
{
    history_holds(request, events, events.len() as int);
    if claimed(events, loaded_order(events)) {
        history_holds(request, events, 6);
    }
    assert forall|i: int| 0 <= i < events.len() implies asks_claims_or_settles(
        #[trigger] commands(request, events)[i],
        loaded_order(events).id,
    ) && (commands(request, events)[i] is SettleEscrow ==> claimed(
        events,
        loaded_order(events),
    )) by {
        history_holds(request, events, i);
        command_before_an_error(request, events, i, stage_after(request, events.take(i)), error);
    }
}

/// What is asked for in a run that ends with an error, judging by the stage
/// that the first events have led to.
proof fn command_before_an_error(
    request: RequestView,
    events: Seq<EventView>,
    i: int,
    stage: StageView,
    error: SettleErrorView,
)
    requires
        0 <= i < events.len(),
        history(request, events, events.len() as int, Stage::Finished(Err(error))),
        history(request, events, i, stage),
        !(stage is Finished),
    ensures
        asks_claims_or_settles(command_of(stage)->0, loaded_order(events).id),
        command_of(stage)->0 is SettleEscrow ==> claimed(events, loaded_order(events)),
{
}

/// A good end tells the truth: either the escrow was settled, or the order
/// was cooperatively canceled and is only acknowledged.
pub proof fn a_good_end_is_a_settlement_or_an_acknowledgement(
    request: RequestView,
    events: Seq<EventView>,
)
    requires
        is_run(request, events),
        stage_after(request, events) == Stage::<Seq<char>, Seq<u8>>::Finished(Ok(())),
    ensures
        settled(events, loaded_order(events)) || (events.len() == 4 && status_is(
            loaded_order(events).status,
            OrderStatus::CooperativelyCanceled,
        )),
{
    history_holds(request, events, events.len() as int);
}

/// The stage in which a claim is given back, judging by the number of the
/// events so far.
proof fn release_stage(request: RequestView, events: Seq<EventView>, i: int, stage: StageView)
    requires
        history(request, events, i, stage),
        command_of(stage) matches Some(Command::ClaimStatus { from, .. }) && from
            == OrderStatus::SettledHoldInvoice,
    ensures
        i == 6,
        claimed(events, loaded_order(events)),
        events[5] matches Event::EscrowSettled(Err(_)),
{
}

/// The way back to dispute is taken only after a failure to settle.
pub proof fn a_claim_is_given_back_only_after_a_failed_settlement(
    request: RequestView,
    events: Seq<EventView>,
    i: int,
    order_id: u128,
)
    requires
        is_run(request, events),
        0 <= i < events.len(),
        commands(request, events)[i] == (Command::ClaimStatus::<Seq<char>, Seq<u8>> {
            order_id,
            from: OrderStatus::SettledHoldInvoice,
            to: OrderStatus::Dispute,
        }),
    ensures
        i == 6,
        claimed(events, loaded_order(events)),
        events[5] matches Event::EscrowSettled(Err(_)),
{
    history_holds(request, events, i);
    release_stage(request, events, i, stage_after(request, events.take(i)));
}

/// The closing phase number `k`.
spec fn closing_phase(republished: bool, slashed: nat, k: int) -> PhaseView {
    let bonds: int = if republished {
        5
    } else {
        4
    };
    if k < bonds - 4 {
        Phase::StoreEventId
    } else if k == bonds - 4 {
        Phase::CloseDispute
    } else if k == bonds - 3 {
        Phase::SenderNotice
    } else if k == bonds - 2 {
        Phase::PartyNotice(Party::Seller)
    } else if k == bonds - 1 {
        Phase::PartyNotice(Party::Buyer)
    } else if k == bonds {
        Phase::Bonds
    } else if k < bonds + 1 + slashed {
        Phase::SlashNotice { row: (k - bonds - 1) as usize, total: slashed as usize }
    } else if k == bonds + 1 + slashed {
        Phase::MakerBond
    } else {
        Phase::Payout
    }
}

/// The closing phases are as numbered.
proof fn closing_phases_are_numbered(republished: bool, slashed: nat)
    ensures
        closing_phases(republished, slashed).len() == slashed + if republished {
            8
        } else {
            7int
        },
        forall|k: int|
            0 <= k < closing_phases(republished, slashed).len() ==> #[trigger] closing_phases(
                republished,
                slashed,
            )[k] == closing_phase(republished, slashed, k),
{
}

/// The stage that a run has come to once the escrow is settled and the order
/// was to be published again, judging by the number of its events.
proof fn closing_stage(request: RequestView, events: Seq<EventView>, i: int, stage: StageView)
    requires
        history(request, events, i, stage),
        settled(events, loaded_order(events)),
        7 <= i < events.len(),
        !(stage is Finished),
    ensures
        stage == Stage::Handling(
            closing_phase(republished(events), slashed_bonds(events), i - 7),
            closing_case(request, events),
        ),
{
}

/// How far a run can go once the escrow is settled, and how it ends, judging
/// by the stage that it has come to.
proof fn closing_end(request: RequestView, events: Seq<EventView>, stage: StageView)
    requires
        history(request, events, events.len() as int, stage),
        settled(events, loaded_order(events)),
    ensures
        events.len() <= bonds_event(events) + 3 + slashed_bonds(events),
        stage is Finished ==> {
            &&& events.len() == bonds_event(events) + 3 + slashed_bonds(events)
            &&& stage == Stage::<Seq<char>, Seq<u8>>::Finished(Ok(()))
        },
{
    if let Stage::Finished(Ok(nothing)) = stage {
        assert(nothing == ());
    }
}

/// Once the escrow is settled nothing stops the rest: whatever the services
/// answer, the order is published again, the dispute closed, the sender and
/// the parties told, the bonds resolved, the owner of each slashed bond told
/// once, the maker's bond closed and the buyer paid, in this order; and the
/// request ends well.
pub proof fn a_settled_escrow_is_followed_through(request: RequestView, events: Seq<EventView>)
    requires
        is_run(request, events),
        settled(events, loaded_order(events)),
        stage_after(request, events) is Finished,
    ensures
        stage_after(request, events) == Stage::<Seq<char>, Seq<u8>>::Finished(Ok(())),
        commands(request, events)[6] == (Command::Republish::<Seq<char>, Seq<u8>> {
            order: loaded_order(events),
            status: OrderStatus::SettledHoldInvoice,
        }),
        commands(request, events).skip(7) == closing_phases(
            republished(events),
            slashed_bonds(events),
        ).map_values(|phase: PhaseView| phase_command(phase, closing_case(request, events))),
{
    history_holds(request, events, events.len() as int);
    closing_end(request, events, stage_after(request, events));
    assert(commands(request, events)[6] == (Command::Republish::<Seq<char>, Seq<u8>> {
        order: loaded_order(events),
        status: OrderStatus::SettledHoldInvoice,
    })) by {
        history_holds(request, events, 6);
    }
    closing_phases_are_numbered(republished(events), slashed_bonds(events));
    let expected = closing_phases(republished(events), slashed_bonds(events)).map_values(
        |phase: PhaseView| phase_command(phase, closing_case(request, events)),
    );
    assert forall|k: int| 0 <= k < expected.len() implies commands(request, events).skip(7)[k]
        == expected[k] by {
        history_holds(request, events, k + 7);
        closing_stage(request, events, k + 7, stage_after(request, events.take(k + 7)));
    }
    assert(commands(request, events).skip(7) =~= expected);
}

/// Every run comes to an end: one in which the escrow is not settled takes
/// seven steps at most, and one in which it is goes through the closing
/// phases and no further.
pub proof fn every_run_comes_to_an_end(request: RequestView, events: Seq<EventView>)
    requires
        is_run(request, events),
    ensures
        !settled(events, loaded_order(events)) ==> events.len() <= 7,
        settled(events, loaded_order(events)) ==> events.len() <= 7 + closing_phases(
            republished(events),
            slashed_bonds(events),
        ).len(),
{
    history_holds(request, events, events.len() as int);
    if settled(events, loaded_order(events)) {
        closing_end(request, events, stage_after(request, events));
        closing_phases_are_numbered(republished(events), slashed_bonds(events));
    }
}

/// The stage in which the owner of a slashed bond is told, judging by the
/// number of the events so far.
proof fn slash_notice_stage(request: RequestView, events: Seq<EventView>, i: int, stage: StageView)
    requires
        history(request, events, i, stage),
        command_of(stage) matches Some(command) && command is NotifySlashed,
    ensures
        settled(events, loaded_order(events)),
        bonds_event(events) < i <= bonds_event(events) + slashed_bonds(events),
        command_of(stage) == Some(
            Command::NotifySlashed::<Seq<char>, Seq<u8>> {
                order: closing_case(request, events).order,
                row: (i - bonds_event(events) - 1) as usize,
            },
        ),
{
}

/// Only confirmed slashes are told of: each notice is on a bond that the
/// resolution reported as slashed, and no bond is told of twice.
pub proof fn only_confirmed_slashes_are_told_of(
    request: RequestView,
    events: Seq<EventView>,
    i: int,
)
    requires
        is_run(request, events),
        0 <= i < events.len(),
        commands(request, events)[i] is NotifySlashed,
    ensures
        settled(events, loaded_order(events)),
        bonds_event(events) < i <= bonds_event(events) + slashed_bonds(events),
        commands(request, events)[i] == (Command::NotifySlashed::<Seq<char>, Seq<u8>> {
            order: closing_case(request, events).order,
            row: (i - bonds_event(events) - 1) as usize,
        }),
{
    history_holds(request, events, i);
    slash_notice_stage(request, events, i, stage_after(request, events.take(i)));
}

/// A stage that moves something other than the claim and the escrow comes
/// after the settlement.
proof fn following_stage(request: RequestView, events: Seq<EventView>, i: int, stage: StageView)
    requires
        history(request, events, i, stage),
        command_of(stage) matches Some(command) && moves_something(command)
            && !(command is ClaimStatus) && !(command is SettleEscrow),
    ensures
        i >= 6,
        settled(events, loaded_order(events)),
{
}

/// What follows the settlement is asked for only after it, be the run ended or
/// still under way: an order is not published as settled, nor a dispute
/// closed, a bond resolved or the buyer paid, before the escrow is settled.
pub proof fn nothing_follows_but_a_settled_escrow(
    request: RequestView,
    events: Seq<EventView>,
    i: int,
)
    requires
        is_run(request, events),
        0 <= i < events.len(),
        moves_something(commands(request, events)[i]),
        !(commands(request, events)[i] is ClaimStatus),
        !(commands(request, events)[i] is SettleEscrow),
    ensures
        i >= 6,
        settled(events, loaded_order(events)),
{
    history_holds(request, events, i);
    following_stage(request, events, i, stage_after(request, events.take(i)));
}

/// What is asked for before the escrow is settled, one by one: each command
/// with every one of its fields, and the answers that lead to it.
pub proof fn the_opening_commands(request: RequestView, events: Seq<EventView>)
    requires
        is_run(request, events),
    ensures
        events.len() > 0 ==> commands(request, events)[0] == (Command::LoadOrder::<
            Seq<char>,
            Seq<u8>,
        > { id: request.order_id }),
        events.len() > 1 ==> (events[0] matches Event::OrderLoaded(Ok(order)) && commands(
            request,
            events,
        )[1] == (Command::CheckAssignment::<Seq<char>, Seq<u8>> {
            solver: key_text(request.identity),
            order_id: order.id,
        })),
        events.len() > 2 ==> (events[1] matches Event::AssignmentChecked(Ok(assigned)) && commands(
            request,
            events,
        )[2] == if assigned {
            Command::CheckPermission::<Seq<char>, Seq<u8>> {
                caller: key_text(request.identity),
                admin: key_text(request.admin),
                order_id: loaded_order(events).id,
            }
        } else {
            Command::CheckTakeover::<Seq<char>, Seq<u8>> {
                order_id: loaded_order(events).id,
                admin: key_text(request.admin),
            }
        }),
        events.len() > 3 ==> {
            let order = loaded_order(events);
            &&& events[1] == Event::<Seq<char>>::AssignmentChecked(Ok(true))
            &&& events[2] matches Event::PermissionChecked(Ok(_))
            &&& status_is(order.status, OrderStatus::CooperativelyCanceled) ==> commands(
                request,
                events,
            )[3] == Command::<Seq<char>, Seq<u8>>::Send(
                OrderMessage {
                    request_id: request.request_id,
                    order_id: order.id,
                    action: MessageAction::CooperativeCancelAccepted,
                    destination: request.identity,
                    trade_index: request.trade_index,
                },
            )
            &&& !status_is(order.status, OrderStatus::CooperativelyCanceled) ==> {
                &&& status_is(order.status, OrderStatus::Dispute)
                &&& commands(request, events)[3] == (Command::ValidateBonds::<
                    Seq<char>,
                    Seq<u8>,
                > { order, resolution: flagged(request) })
            }
        },
        events.len() > 4 ==> approved(events, loaded_order(events)) && commands(request, events)[4]
            == (Command::ClaimStatus::<Seq<char>, Seq<u8>> {
            order_id: loaded_order(events).id,
            from: OrderStatus::Dispute,
            to: OrderStatus::SettledHoldInvoice,
        }),
        events.len() > 5 ==> claimed(events, loaded_order(events)) && commands(request, events)[5]
            == (Command::SettleEscrow::<Seq<char>, Seq<u8>> {
            order: loaded_order(events),
            action: MessageAction::AdminSettled,
            is_admin: true,
        }),
        events.len() > 6 ==> (events[5] matches Event::EscrowSettled(res) && commands(
            request,
            events,
        )[6] == match res {
            Ok(_) => Command::Republish::<Seq<char>, Seq<u8>> {
                order: loaded_order(events),
                status: OrderStatus::SettledHoldInvoice,
            },
            Err(_) => Command::ClaimStatus::<Seq<char>, Seq<u8>> {
                order_id: loaded_order(events).id,
                from: OrderStatus::SettledHoldInvoice,
                to: OrderStatus::Dispute,
            },
        }),
{
    first_events_lead_on(request, events);
}

/// The sides whose bonds the message of a request flags: none where it carries
/// no resolution.
pub open spec fn flagged(request: RequestView) -> BondResolution {
    BondResolution {
        slash_seller: request.bond_resolution is Some && request.bond_resolution->0.slash_seller,
        slash_buyer: request.bond_resolution is Some && request.bond_resolution->0.slash_buyer,
    }
}

/// Whether a command is what a settled run asks for at place `i`, after the
/// order was to be published again: every field of it is the settled order's,
/// the request's or fixed.
pub open spec fn belongs_at(
    request: RequestView,
    events: Seq<EventView>,
    i: int,
    command: CommandView,
) -> bool {
    let bonds = bonds_event(events);
    let slashed = slashed_bonds(events);
    let case = closing_case(request, events);
    &&& 7 <= i <= bonds + 2 + slashed
    &&& i < bonds - 4 ==> command == (Command::StoreEventId::<Seq<char>, Seq<u8>> {
        order_id: case.order.id,
        event_id: case.order.event_id,
    })
    &&& i == bonds - 4 ==> command == (Command::CloseDispute::<Seq<char>, Seq<u8>> {
        order: case.order,
        dispute_status: DisputeStatus::Settled,
    })
    &&& i == bonds - 3 ==> command == Command::<Seq<char>, Seq<u8>>::Send(
        OrderMessage {
            request_id: request.request_id,
            order_id: case.order.id,
            action: MessageAction::AdminSettled,
            destination: request.sender,
            trade_index: request.trade_index,
        },
    )
    &&& i == bonds - 2 ==> is_notice(command, case, Party::Seller, case.order.seller_pubkey)
    &&& i == bonds - 1 ==> is_notice(command, case, Party::Buyer, case.order.buyer_pubkey)
    &&& i == bonds ==> command == (Command::ApplyBonds::<Seq<char>, Seq<u8>> {
        order: case.order,
        resolution: flagged(request),
        slash_reason: BondSlashReason::LostDispute,
    })
    &&& bonds < i <= bonds + slashed ==> command == (Command::NotifySlashed::<
        Seq<char>,
        Seq<u8>,
    > { order: case.order, row: (i - bonds - 1) as usize })
    &&& i == bonds + 1 + slashed ==> command == (Command::CloseMakerBond::<Seq<char>, Seq<u8>> {
        order: case.order,
    })
    &&& i == bonds + 2 + slashed ==> command == (Command::PayBuyer::<Seq<char>, Seq<u8>> {
        order: case.order,
        request_id: request.request_id,
    })
}

/// What is asked for after the escrow is settled and the order was to be
/// published again, place by place, in a run that has ended or is still under
/// way.
#[verifier::spinoff_prover]
pub proof fn the_closing_commands(request: RequestView, events: Seq<EventView>, i: int)
    requires
        is_run(request, events),
        settled(events, loaded_order(events)),
        7 <= i < events.len(),
    ensures
        belongs_at(request, events, i, commands(request, events)[i]),
{
    closing_command(request, events, i);
    closing_phase_belongs(request, events, i);
}

/// What is asked for once the order was to be published again is what the
/// phase of that place asks for.
#[verifier::spinoff_prover]
proof fn closing_command(request: RequestView, events: Seq<EventView>, i: int)
    requires
        is_run(request, events),
        settled(events, loaded_order(events)),
        7 <= i < events.len(),
    ensures
        i <= bonds_event(events) + 2 + slashed_bonds(events),
        commands(request, events)[i] == phase_command(
            closing_phase(republished(events), slashed_bonds(events), i - 7),
            closing_case(request, events),
        ),
{
    assert(i <= bonds_event(events) + 2 + slashed_bonds(events)) by {
        history_holds(request, events, events.len() as int);
        closing_end(request, events, stage_after(request, events));
    }
    history_holds(request, events, i);
    closing_stage(request, events, i, stage_after(request, events.take(i)));
}

/// What a closing phase asks for belongs at its place.
proof fn closing_phase_belongs(request: RequestView, events: Seq<EventView>, i: int)
    requires
        7 <= i <= bonds_event(events) + 2 + slashed_bonds(events),
    ensures
        belongs_at(
            request,
            events,
            i,
            phase_command(
                closing_phase(republished(events), slashed_bonds(events), i - 7),
                closing_case(request, events),
            ),
        ),
{
}

/// Whether a command is the settlement notice to a party of which an order
/// holds a certain text for a key: a message at the key that the text reads
/// as, or a note that there is no key, or none that can be read.
pub open spec fn is_notice(
    command: CommandView,
    case: CaseView,
    told: Party,
    pubkey: Option<Seq<char>>,
) -> bool {
    match command {
        Command::Send(notice) => {
            &&& pubkey is Some
            &&& read_key(pubkey->0) == Some(notice.destination)
            &&& notice.action == MessageAction::AdminSettled
            &&& notice.order_id == case.order.id
            &&& notice.request_id is None
            &&& notice.trade_index == case.request.trade_index
        },
        Command::SkipNotice { order_id, party, reason } => {
            &&& order_id == case.order.id
            &&& party == told
            &&& reason is NoPubkey <==> pubkey is None
            &&& reason is UnparseablePubkey <==> pubkey is Some && read_key(pubkey->0) is None
        },
        _ => false,
    }
}

/// The bonds are checked once, on the loaded order, for the very sides that
/// the message flags: a flag that the message sets is set in the check, and
/// one that it does not set is not.
#[verifier::spinoff_prover]
pub proof fn the_flagged_bonds_are_checked(
    request: RequestView,
    events: Seq<EventView>,
    i: int,
    asked: BondResolution,
)
    requires
        is_run(request, events),
        0 <= i < events.len(),
        commands(request, events)[i] is ValidateBonds,
    ensures
        i == 3,
        commands(request, events)[i] matches Command::ValidateBonds { order, resolution } && {
            &&& events[0] == Event::OrderLoaded(Ok(order))
            &&& request.bond_resolution == Some(asked) ==> resolution.slash_seller
                == asked.slash_seller && resolution.slash_buyer == asked.slash_buyer
            &&& request.bond_resolution is None ==> !resolution.slash_seller
                && !resolution.slash_buyer
        },
{
    assert(i == 3) by {
        history_holds(request, events, i);
        bonds_stage(request, events, i, stage_after(request, events.take(i)));
    }
    the_opening_commands(request, events);
}

/// The bonds that are slashed are the bonds that were checked: the resolution
/// that is applied is, side by side, the one that the message asks for and the
/// one that was validated earlier in the run.
pub proof fn the_checked_bonds_are_the_slashed_ones(
    request: RequestView,
    events: Seq<EventView>,
    i: int,
    asked: BondResolution,
)
    requires
        is_run(request, events),
        0 <= i < events.len(),
        commands(request, events)[i] is ApplyBonds,
    ensures
        i > 6,
        settled(events, loaded_order(events)),
        commands(request, events)[3] is ValidateBonds,
        commands(request, events)[i] matches Command::ApplyBonds {
            order,
            resolution,
            slash_reason,
        } && {
            &&& order == closing_case(request, events).order
            &&& slash_reason == BondSlashReason::LostDispute
            &&& commands(request, events)[3] matches Command::ValidateBonds {
                resolution: checked,
                ..
            } && checked.slash_seller == resolution.slash_seller && checked.slash_buyer
                == resolution.slash_buyer
            &&& request.bond_resolution == Some(asked) ==> resolution.slash_seller
                == asked.slash_seller && resolution.slash_buyer == asked.slash_buyer
            &&& request.bond_resolution is None ==> !resolution.slash_seller
                && !resolution.slash_buyer
        },
{
    history_holds(request, events, i);
    bonds_stage(request, events, i, stage_after(request, events.take(i)));
    the_opening_commands(request, events);
    the_closing_commands(request, events, i);
}

/// The stages in which the bonds are checked and resolved, judging by the
/// number of the events so far.
proof fn bonds_stage(request: RequestView, events: Seq<EventView>, i: int, stage: StageView)
    requires
        history(request, events, i, stage),
        !(stage is Finished),
    ensures
        command_of(stage)->0 is ValidateBonds ==> i == 3,
        command_of(stage)->0 is ApplyBonds ==> settled(events, loaded_order(events)) && i
            == bonds_event(events),
{
}

/// A settled run that ends has paid the buyer last: on the republished order as
/// it is or, where it could not be republished, on the loaded order with
/// nothing changed but its status; and under the id of the request.
pub proof fn the_buyer_of_the_settled_order_is_paid(request: RequestView, events: Seq<EventView>)
    requires
        is_run(request, events),
        settled(events, loaded_order(events)),
        stage_after(request, events) is Finished,
    ensures
        commands(request, events).last() matches Command::PayBuyer { order, request_id } && {
            &&& request_id == request.request_id
            &&& events[6] matches Event::OrderRepublished(Ok(updated)) ==> order == updated
            &&& events[6] matches Event::OrderRepublished(Err(_)) ==> {
                &&& order.status == status_text(OrderStatus::SettledHoldInvoice)
                &&& order.id == loaded_order(events).id
                &&& order.event_id == loaded_order(events).event_id
                &&& order.seller_pubkey == loaded_order(events).seller_pubkey
                &&& order.buyer_pubkey == loaded_order(events).buyer_pubkey
                &&& order.seller_dispute == loaded_order(events).seller_dispute
                &&& order.buyer_dispute == loaded_order(events).buyer_dispute
            }
        },
{
    history_holds(request, events, events.len() as int);
    closing_end(request, events, stage_after(request, events));
    the_closing_commands(request, events, events.len() - 1);
}

/// The buyer is paid only when all else is done: the payment is the last thing
/// that a settled run asks for, and no other run asks for one.
pub proof fn the_buyer_is_paid_last(request: RequestView, events: Seq<EventView>, i: int)
    requires
        is_run(request, events),
        0 <= i < events.len(),
        commands(request, events)[i] is PayBuyer,
    ensures
        settled(events, loaded_order(events)),
        i == bonds_event(events) + 2 + slashed_bonds(events),
        i == events.len() - 1,
{
    history_holds(request, events, i);
    payout_stage(request, events, i, stage_after(request, events.take(i)));
    history_holds(request, events, events.len() as int);
    closing_end(request, events, stage_after(request, events));
}

/// The stage in which the buyer is paid, judging by the number of the events
/// so far.
proof fn payout_stage(request: RequestView, events: Seq<EventView>, i: int, stage: StageView)
    requires
        history(request, events, i, stage),
        command_of(stage) matches Some(command) && command is PayBuyer,
    ensures
        settled(events, loaded_order(events)),
        i == bonds_event(events) + 2 + slashed_bonds(events),
{
}

/// In a settled run the seller and the buyer are told, the one after the other,
/// each at the key that the order holds for it: a key that is stored for a
/// party is the key that the notice goes to, whatever else the order holds.
pub proof fn the_parties_of_the_settled_order_are_told(
    request: RequestView,
    events: Seq<EventView>,
    seller: Seq<u8>,
    buyer: Seq<u8>,
)
    requires
        is_run(request, events),
        settled(events, loaded_order(events)),
        stage_after(request, events) is Finished,
        seller.len() == 32,
        buyer.len() == 32,
        closing_case(request, events).order.seller_pubkey == Some(key_text(seller)),
        closing_case(request, events).order.buyer_pubkey == Some(key_text(buyer)),
    ensures
        commands(request, events)[bonds_event(events) - 2] matches Command::Send(notice)
            && notice.destination == seller && notice.action == MessageAction::AdminSettled
            && notice.order_id == closing_case(request, events).order.id && notice.request_id
            == None::<u64> && notice.trade_index == request.trade_index,
        commands(request, events)[bonds_event(events) - 1] matches Command::Send(notice)
            && notice.destination == buyer && notice.action == MessageAction::AdminSettled
            && notice.order_id == closing_case(request, events).order.id && notice.request_id
            == None::<u64> && notice.trade_index == request.trade_index,
{
    history_holds(request, events, events.len() as int);
    closing_end(request, events, stage_after(request, events));
    stored_key_reads_back(seller);
    stored_key_reads_back(buyer);
    the_closing_commands(request, events, bonds_event(events) - 2);
    the_closing_commands(request, events, bonds_event(events) - 1);
}

} // verus!
