//! What the conditional moves of an order's status guarantee to requests that
//! race for the same order.

use crate::model::{command_of, next};
use crate::status::{
    status_is, status_text, stored_status_reads_back, stored_statuses_differ, CantDoReason,
    OrderStatus,
};
use crate::types::{CaseView, Command, Event, Phase, SettleError, Stage, StageView};
use vstd::prelude::*;

verus! {

/// What a conditional move reads of a stored order.
pub struct Row {
    pub status: Seq<char>,
    /// A Cashu escrow is locked for the order.
    pub cashu_locked: bool,
}

/// A conditional move of an order's status: to `to`, if it is `from`.
pub struct Move {
    pub from: OrderStatus,
    pub to: OrderStatus,
}

/// The move by which a request claims an order.
pub open spec fn claim() -> Move {
    Move { from: OrderStatus::Dispute, to: OrderStatus::SettledHoldInvoice }
}

/// The move by which a request gives its claim back.
pub open spec fn release() -> Move {
    Move { from: OrderStatus::SettledHoldInvoice, to: OrderStatus::Dispute }
}

/// What a request asks for to claim an order is the claim of that order, and
/// what it asks for when the settlement fails is its release.
pub proof fn a_request_claims_and_releases_its_order(case: CaseView, cause: Seq<char>)
    ensures
        command_of(Stage::Handling(Phase::Claim, case)) == Some(
            Command::ClaimStatus::<Seq<char>, Seq<u8>> {
                order_id: case.order.id,
                from: claim().from,
                to: claim().to,
            },
        ),
        command_of(
            next(Stage::Handling(Phase::Settle, case), Event::EscrowSettled(Err(cause))),
        ) == Some(
            Command::ClaimStatus::<Seq<char>, Seq<u8>> {
                order_id: case.order.id,
                from: release().from,
                to: release().to,
            },
        ),
{
}

/// Whether a move matches a stored order, which is what the service answers:
/// the order has the status to move from, and no Cashu escrow is locked for
/// it.
pub open spec fn matches_row(row: Row, step: Move) -> bool {
    row.status == status_text(step.from) && !row.cashu_locked
}

/// The stored order after one move. A move that does not match changes
/// nothing, and none touches the lock.
pub open spec fn moved(row: Row, step: Move) -> Row {
    if matches_row(row, step) {
        Row { status: status_text(step.to), ..row }
    } else {
        row
    }
}

/// Where a request comes to whose claim finds a certain stored order.
pub open spec fn after_claim(case: CaseView, row: Row) -> StageView {
    next(Stage::Handling(Phase::Claim, case), Event::StatusClaimed(Ok(matches_row(row, claim()))))
}

/// Whether write number `k`, whoever makes it, brings the order back to
/// dispute. `rows[k]` is the stored order before that write.
pub open spec fn returns_to_dispute(rows: Seq<Row>, k: int) -> bool {
    &&& rows[k].status != status_text(OrderStatus::Dispute)
    &&& rows[k + 1].status == status_text(OrderStatus::Dispute)
}

/// A won claim excludes every later one until a write brings the order back
/// to dispute: whatever else is written meanwhile, and by whomever, the order
/// is out of dispute and the later request is turned down.
pub proof fn a_won_claim_excludes_later_ones(rows: Seq<Row>, i: int, j: int, later: CaseView)
    requires
        0 <= i < j < rows.len(),
        matches_row(rows[i], claim()),
        rows[i + 1] == moved(rows[i], claim()),
        forall|k: int| i < k < j ==> !#[trigger] returns_to_dispute(rows, k),
    ensures
        rows[j].status != status_text(OrderStatus::Dispute),
        after_claim(later, rows[j]) == Stage::<Seq<char>, Seq<u8>>::Finished(
            Err(SettleError::CantDo(CantDoReason::InvalidOrderStatus)),
        ),
    decreases j,
{
    if j == i + 1 {
        stored_statuses_differ(OrderStatus::Dispute, OrderStatus::SettledHoldInvoice);
    } else {
        a_won_claim_excludes_later_ones(rows, i, j - 1, later);
        assert(!returns_to_dispute(rows, j - 1));
    }
}

/// The stored order after the first `n` moves, from `row` on.
pub open spec fn row_after(row: Row, moves: Seq<Move>, n: int) -> Row
    decreases n,
{
    if n <= 0 {
        row
    } else {
        moved(row_after(row, moves, n - 1), moves[n - 1])
    }
}

/// Whether move number `i` matches the stored order that it finds.
pub open spec fn applies(row: Row, moves: Seq<Move>, i: int) -> bool {
    matches_row(row_after(row, moves, i), moves[i])
}

/// Whether an order's status is only ever claimed and given back.
pub open spec fn claims_and_releases(moves: Seq<Move>) -> bool {
    forall|i: int|
        0 <= i < moves.len() ==> (#[trigger] moves[i] == claim() || moves[i] == release())
}

/// Of the requests that race for an order only one settles its escrow: while
/// the claim of one stands, every other is turned down.
pub proof fn only_one_racing_request_settles(
    row: Row,
    moves: Seq<Move>,
    i: int,
    j: int,
    later: CaseView,
)
    requires
        claims_and_releases(moves),
        0 <= i < j <= moves.len(),
        moves[i] == claim(),
        applies(row, moves, i),
        forall|k: int| i < k < j && #[trigger] moves[k] == release() ==> !applies(row, moves, k),
    ensures
        after_claim(later, row_after(row, moves, j)) == Stage::<Seq<char>, Seq<u8>>::Finished(
            Err(SettleError::CantDo(CantDoReason::InvalidOrderStatus)),
        ),
{
    let rows = Seq::new(moves.len() + 1, |n: int| row_after(row, moves, n));
    assert forall|k: int| i < k < j implies !#[trigger] returns_to_dispute(rows, k) by {
        stored_statuses_differ(OrderStatus::Dispute, OrderStatus::SettledHoldInvoice);
        assert(moves[k] == claim() || moves[k] == release());
    }
    a_won_claim_excludes_later_ones(rows, i, j, later);
}

/// Between two won claims on an order whose status is only claimed and given
/// back, one is given back.
pub proof fn a_standing_claim_excludes_others(row: Row, moves: Seq<Move>, i: int, j: int)
    requires
        claims_and_releases(moves),
        0 <= i < j < moves.len(),
        moves[i] == claim(),
        applies(row, moves, i),
        moves[j] == claim(),
        applies(row, moves, j),
    ensures
        exists|k: int| i < k < j && #[trigger] moves[k] == release() && applies(row, moves, k),
{
    if forall|k: int| i < k < j && #[trigger] moves[k] == release() ==> !applies(row, moves, k) {
        only_one_racing_request_settles(row, moves, i, j, arbitrary());
    }
}

/// An order with a locked Cashu escrow cannot be settled: its claim matches
/// nothing, whatever its status, and the request is turned down.
pub proof fn a_locked_order_cannot_be_claimed(row: Row, case: CaseView)
    requires
        row.cashu_locked,
    ensures
        moved(row, claim()) == row,
        after_claim(case, row) == Stage::<Seq<char>, Seq<u8>>::Finished(
            Err(SettleError::CantDo(CantDoReason::InvalidOrderStatus)),
        ),
{
}

/// Giving a claim back leaves any other status alone: an order that has gone
/// further meanwhile is not dragged backwards.
pub proof fn giving_back_leaves_other_statuses_alone(row: Row)
    requires
        row.status != status_text(OrderStatus::SettledHoldInvoice),
    ensures
        moved(row, release()) == row,
{
}

/// A claim that is given back leaves the order in dispute, so that the solver
/// can try again: the order passes the status check, and the claim is won.
pub proof fn a_claim_given_back_can_be_won_again(row: Row, case: CaseView)
    requires
        matches_row(row, claim()),
    ensures
        moved(moved(row, claim()), release()) == row,
        status_is(row.status, OrderStatus::Dispute),
        !status_is(row.status, OrderStatus::CooperativelyCanceled),
        after_claim(case, row) == Stage::Handling(Phase::Settle, case),
{
    stored_status_reads_back(OrderStatus::Dispute, OrderStatus::Dispute);
    stored_status_reads_back(OrderStatus::Dispute, OrderStatus::CooperativelyCanceled);
}

} // verus!
