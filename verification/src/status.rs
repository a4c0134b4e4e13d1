//! The order statuses that settling a dispute reads and writes.

use mostro_core::order::{Order as StoredOrder, Status};
use vstd::prelude::*;

verus! {

/// A status of an order, as far as settling a dispute reads or writes it.
#[derive(Clone, Copy, Debug, PartialEq, Eq, Structural)]
pub enum OrderStatus {
    /// Both parties agreed to cancel the trade.
    CooperativelyCanceled,
    /// The order is in dispute.
    Dispute,
    /// The seller's hold invoice is settled; the buyer is still to be paid.
    SettledHoldInvoice,
}

/// Why a request is turned down.
#[derive(Clone, Copy, Debug, PartialEq, Eq, Structural)]
pub enum CantDoReason {
    /// The caller is not the solver of the dispute.
    IsNotYourDispute,
    /// An admin has taken the dispute over from the caller.
    DisputeTakenByAdmin,
    /// The order is not in dispute.
    InvalidOrderStatus,
}

/// The text under which a status is stored.
pub open spec fn status_text(status: OrderStatus) -> Seq<char> {
    match status {
        OrderStatus::CooperativelyCanceled => "cooperatively-canceled"@,
        OrderStatus::Dispute => "dispute"@,
        OrderStatus::SettledHoldInvoice => "settled-hold-invoice"@,
    }
}

/// Whether a text holds ASCII characters only.
pub open spec fn is_ascii_text(text: Seq<char>) -> bool {
    forall|i: int| 0 <= i < text.len() ==> #[trigger] text[i] <= '\x7f'
}

/// A text with its ASCII capitals in lower case.
pub open spec fn ascii_lowercase(text: Seq<char>) -> Seq<char> {
    text.map_values(
        |c: char|
            if 'A' <= c <= 'Z' {
                (c as int + ('a' as int - 'A' as int)) as char
            } else {
                c
            },
    )
}

/// The lower case of a text that is not all ASCII, as `str::to_lowercase`
/// gives it.
pub uninterp spec fn unicode_lowercase(text: Seq<char>) -> Seq<char>;

/// Whether a stored text stands for a status: whether its lower case is the
/// text of the status.
pub open spec fn status_is(text: Seq<char>, status: OrderStatus) -> bool {
    status_text(status) == if is_ascii_text(text) {
        ascii_lowercase(text)
    } else {
        unicode_lowercase(text)
    }
}

/// Calls `mostro_core::order::Order::check_status` on an order that stores
/// `text` as its status.
///
/// It is trusted that a text passes exactly if its lower case, as
/// `str::to_lowercase` gives it, is the text of the expected status, that in
/// an ASCII text this turns the capitals `A` to `Z` and nothing else, and that
/// the one reason for turning a text down is `InvalidOrderStatus`. What the
/// lower case of any other text is, is not said.
#[verifier::external_body]
pub(crate) fn order_check_status(text: &str, expected: OrderStatus) -> (res: Result<(), CantDoReason>)
    ensures
        res == (if status_text(expected) == if is_ascii_text(text@) {
            ascii_lowercase(text@)
        } else {
            unicode_lowercase(text@)
        } {
            Ok(())
        } else {
            Err(CantDoReason::InvalidOrderStatus)
        }),
{
    let order = StoredOrder { status: text.to_string(), ..Default::default() };
    let status = match expected {
        OrderStatus::CooperativelyCanceled => Status::CooperativelyCanceled,
        OrderStatus::Dispute => Status::Dispute,
        OrderStatus::SettledHoldInvoice => Status::SettledHoldInvoice,
    };
    match order.check_status(status) {
        Ok(()) => Ok(()),
        Err(_) => Err(CantDoReason::InvalidOrderStatus),
    }
}

/// Calls the `Display` of `mostro_core::order::Status`.
///
/// It is trusted that a status is displayed as the text it is stored under.
#[verifier::external_body]
pub(crate) fn status_to_string(status: OrderStatus) -> (res: String)
    ensures
        res@ == status_text(status),
{
    match status {
        OrderStatus::CooperativelyCanceled => Status::CooperativelyCanceled,
        OrderStatus::Dispute => Status::Dispute,
        OrderStatus::SettledHoldInvoice => Status::SettledHoldInvoice,
    }.to_string()
}

/// A stored status passes the check for itself and for no other status.
pub proof fn stored_status_reads_back(stored: OrderStatus, expected: OrderStatus)
    ensures
        status_is(status_text(stored), expected) <==> stored == expected,
{
    reveal_strlit("cooperatively-canceled");
    reveal_strlit("dispute");
    reveal_strlit("settled-hold-invoice");
    let text = status_text(stored);
    assert(is_ascii_text(text));
    assert(ascii_lowercase(text) =~= text);
    assert("cooperatively-canceled"@.len() == 22);
    assert("dispute"@.len() == 7);
    assert("settled-hold-invoice"@.len() == 20);
}

/// A text stands for one status at most.
pub proof fn a_text_has_one_status_at_most(text: Seq<char>, one: OrderStatus, other: OrderStatus)
    requires
        status_is(text, one),
        status_is(text, other),
    ensures
        one == other,
{
    stored_statuses_differ(one, other);
}

/// Different statuses are stored as different texts.
pub proof fn stored_statuses_differ(one: OrderStatus, other: OrderStatus)
    ensures
        status_text(one) == status_text(other) <==> one == other,
{
    stored_status_reads_back(one, one);
    stored_status_reads_back(one, other);
    stored_status_reads_back(other, other);
}

/// The statuses are stored in lower case, word by word.
pub proof fn statuses_are_stored_by_name()
    ensures
        status_text(OrderStatus::CooperativelyCanceled) == "cooperatively-canceled"@,
        status_text(OrderStatus::Dispute) == "dispute"@,
        status_text(OrderStatus::SettledHoldInvoice) == "settled-hold-invoice"@,
{
}

/// Capitals do not matter to a status.
pub proof fn capitals_do_not_matter_to_a_status(
    text: Seq<char>,
    other: Seq<char>,
    status: OrderStatus,
)
    requires
        is_ascii_text(text),
        other.len() == text.len(),
        forall|i: int|
            0 <= i < text.len() ==> #[trigger] other[i] == text[i] || 'a' <= text[i] <= 'z'
                && other[i] as int == text[i] as int - 32,
    ensures
        status_is(other, status) <==> status_is(text, status),
{
    assert forall|i: int| 0 <= i < other.len() implies #[trigger] other[i] <= '\x7f' by {
        assert(text[i] <= '\x7f');
    }
    assert forall|i: int| 0 <= i < text.len() implies ascii_lowercase(other)[i]
        == ascii_lowercase(text)[i] by {
        assert(other[i] == text[i] || 'a' <= text[i] <= 'z');
    }
    assert(ascii_lowercase(other) =~= ascii_lowercase(text));
}

/// A text passes for a status exactly if it spells the status letter by
/// letter, in capitals or not. A text that is not all ASCII passes exactly if
/// its lower case is the status.
pub proof fn a_status_is_spelt_letter_by_letter(text: Seq<char>, status: OrderStatus)
    ensures
        is_ascii_text(text) ==> (status_is(text, status) <==> {
            &&& text.len() == status_text(status).len()
            &&& forall|i: int|
                0 <= i < text.len() ==> {
                    ||| #[trigger] text[i] == status_text(status)[i]
                    ||| 'A' <= text[i] <= 'Z' && text[i] as int + 32 == status_text(
                        status,
                    )[i] as int
                }
        }),
        !is_ascii_text(text) ==> (status_is(text, status) <==> unicode_lowercase(text)
            == status_text(status)),
{
    if is_ascii_text(text) {
        reveal_strlit("cooperatively-canceled");
        reveal_strlit("dispute");
        reveal_strlit("settled-hold-invoice");
        let wanted = status_text(status);
        let lower = ascii_lowercase(text);
        assert(forall|i: int| 0 <= i < wanted.len() ==> !('A' <= #[trigger] wanted[i] <= 'Z'));
        if status_is(text, status) {
            assert forall|i: int| 0 <= i < text.len() implies #[trigger] text[i] == wanted[i]
                || 'A' <= text[i] <= 'Z' && text[i] as int + 32 == wanted[i] as int by {
                assert(lower[i] == wanted[i]);
            }
        } else if text.len() == wanted.len() && forall|i: int|
            0 <= i < text.len() ==> #[trigger] text[i] == wanted[i] || 'A' <= text[i] <= 'Z'
                && text[i] as int + 32 == wanted[i] as int {
            assert forall|i: int| 0 <= i < text.len() implies lower[i] == wanted[i] by {
                assert(text[i] == wanted[i] || 'A' <= text[i] <= 'Z');
                assert(!('A' <= wanted[i] <= 'Z'));
            }
            assert(lower =~= wanted);
        }
    }
}

} // verus!
