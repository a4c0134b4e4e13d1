//! Keys and statuses, as they are stored and read.

use admin_settle::key::PublicKey;
use admin_settle::status::{CantDoReason, OrderStatus};
use admin_settle::types::{BondResolution, Order, Request};
use mostro_core::error::CantDoReason as StoredReason;
use mostro_core::order::{Order as StoredOrder, Status};

const HEX: &str = "aa4fc8665f5696e33db7e1a572e3b0f5b3d615837b0f362dcb1c8068b098c7b4";
const NPUB: &str = "npub14f8usejl26twx0dhuxjh9cas7keav9vr0v8nvtwtrjqx3vycc76qqh9nsy";

fn order_with_status(status: &str) -> Order {
    Order {
        id: 1,
        status: status.to_string(),
        event_id: String::new(),
        seller_pubkey: None,
        buyer_pubkey: None,
        seller_dispute: false,
        buyer_dispute: false,
    }
}

#[test]
fn a_key_is_stored_as_lower_case_digits() {
    let mut bytes = [0u8; 32];
    bytes[0] = 0x0f;
    bytes[31] = 0xa1;
    assert_eq!(PublicKey { bytes }.text(), format!("0f{}a1", "00".repeat(30)));
}

#[test]
fn a_stored_key_reads_back() {
    for byte in 0..=255 {
        let key = PublicKey { bytes: [byte; 32] };
        assert_eq!(PublicKey::read(key.text().as_str()), Some(key));
    }
}

#[test]
fn a_key_is_read_from_digits_of_either_case() {
    let key = PublicKey::read(HEX).unwrap();
    assert_eq!(key.bytes[0], 0xaa);
    assert_eq!(key.bytes[31], 0xb4);
    assert_eq!(key.text(), HEX);
    assert_eq!(PublicKey::read(HEX.to_uppercase().as_str()), Some(key));
}

#[test]
fn a_key_is_read_from_an_address() {
    let key = PublicKey::read(HEX);
    assert!(key.is_some());
    assert_eq!(PublicKey::read(NPUB), key);
    assert_eq!(PublicKey::read(format!("nostr:{NPUB}").as_str()), key);
}

#[test]
fn what_is_no_key_is_not_read() {
    assert_eq!(PublicKey::read(""), None);
    assert_eq!(PublicKey::read("not a key"), None);
    assert_eq!(PublicKey::read(&HEX[..62]), None);
    assert_eq!(PublicKey::read(format!("{HEX}00").as_str()), None);
}

#[test]
fn a_stored_status_passes_its_own_check_only() {
    let statuses = [
        ("cooperatively-canceled", OrderStatus::CooperativelyCanceled),
        ("dispute", OrderStatus::Dispute),
        ("settled-hold-invoice", OrderStatus::SettledHoldInvoice),
    ];
    for (text, _) in statuses {
        for (expected_text, expected) in statuses {
            let result = order_with_status(text).check_status(expected);
            assert_eq!(result.is_ok(), text == expected_text);
        }
    }
}

#[test]
fn capitals_do_not_matter_to_a_status() {
    assert_eq!(order_with_status("Dispute").check_status(OrderStatus::Dispute), Ok(()));
    assert_eq!(order_with_status("DISPUTE").check_status(OrderStatus::Dispute), Ok(()));
}

#[test]
fn any_other_text_is_an_invalid_status() {
    for text in ["", "active", "disputes", " dispute", "d\u{131}spute"] {
        assert_eq!(
            order_with_status(text).check_status(OrderStatus::Dispute),
            Err(CantDoReason::InvalidOrderStatus)
        );
        let stored = StoredOrder { status: text.to_string(), ..Default::default() };
        assert_eq!(
            stored.check_status(Status::Dispute),
            Err(StoredReason::InvalidOrderStatus)
        );
    }
}

#[test]
fn no_bond_is_slashed_unless_asked_for() {
    let key = PublicKey { bytes: [0; 32] };
    let mut request = Request {
        order_id: None,
        request_id: None,
        trade_index: None,
        bond_resolution: None,
        identity: key,
        sender: key,
        admin: key,
    };
    assert_eq!(
        request.resolution(),
        BondResolution { slash_seller: false, slash_buyer: false }
    );
    let asked = BondResolution { slash_seller: false, slash_buyer: true };
    request.bond_resolution = Some(asked);
    assert_eq!(request.resolution(), asked);
}
