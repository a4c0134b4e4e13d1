//! Nostr public keys: the 32 bytes, the text they are stored as, and reading
//! a stored text back.

use core::str::FromStr;
use vstd::prelude::*;

verus! {

/// A Nostr public key, held as its 32 bytes.
#[derive(Clone, Copy, Debug, PartialEq, Eq)]
pub struct PublicKey {
    pub bytes: [u8; 32],
}

impl View for PublicKey {
    type V = Seq<u8>;

    open spec fn view(&self) -> Seq<u8> {
        self.bytes@
    }
}

/// The lower-case hexadecimal digit of a value below 16.
pub open spec fn hex_digit(value: int) -> char {
    if value < 10 {
        ('0' as int + value) as char
    } else {
        ('a' as int + (value - 10)) as char
    }
}

/// The value of a hexadecimal digit of either case; `None` for any other
/// character.
pub open spec fn hex_value(digit: char) -> Option<int> {
    if '0' <= digit <= '9' {
        Some(digit as int - '0' as int)
    } else if 'a' <= digit <= 'f' {
        Some(digit as int - 'a' as int + 10)
    } else if 'A' <= digit <= 'F' {
        Some(digit as int - 'A' as int + 10)
    } else {
        None
    }
}

/// The text of a key: two lower-case hexadecimal digits for each byte, the
/// high half first.
pub open spec fn key_text(bytes: Seq<u8>) -> Seq<char> {
    Seq::new(
        2 * bytes.len(),
        |i: int|
            hex_digit(
                if i % 2 == 0 {
                    bytes[i / 2] as int / 16
                } else {
                    bytes[i / 2] as int % 16
                },
            ),
    )
}

/// Whether a text is made of exactly 64 hexadecimal digits.
pub open spec fn is_hex_key(text: Seq<char>) -> bool {
    &&& text.len() == 64
    &&& forall|i: int| 0 <= i < 64 ==> hex_value(#[trigger] text[i]) is Some
}

/// The 32 bytes that 64 hexadecimal digits stand for.
pub open spec fn hex_key(text: Seq<char>) -> Seq<u8> {
    Seq::new(
        32,
        |i: int| (16 * hex_value(text[2 * i])->0 + hex_value(text[2 * i + 1])->0) as u8,
    )
}

/// What `nostr_sdk`'s reader of public keys makes of a text that is not 64
/// hexadecimal digits: the key of a `npub` or of a `nostr:` address, or
/// nothing.
pub uninterp spec fn parsed_public_key(text: Seq<char>) -> Option<Seq<u8>>;

/// The key that a text stands for, if it stands for one.
pub open spec fn read_key(text: Seq<char>) -> Option<Seq<u8>> {
    if is_hex_key(text) {
        Some(hex_key(text))
    } else {
        parsed_public_key(text)
    }
}

/// Calls `<nostr_sdk::PublicKey as FromStr>::from_str`.
///
/// It is trusted that 64 hexadecimal digits always read as the bytes they
/// spell, whatever these bytes are, and that what any other text reads as
/// depends on the text alone.
#[verifier::external_body]
fn public_key_from_str(text: &str) -> (res: Option<[u8; 32]>)
    ensures
        match res {
            Some(bytes) => Some(bytes@),
            None => None,
        } == (if is_hex_key(text@) {
            Some(hex_key(text@))
        } else {
            parsed_public_key(text@)
        }),
{
    match nostr_sdk::PublicKey::from_str(text) {
        Ok(key) => Some(key.to_bytes()),
        Err(_) => None,
    }
}

/// Calls the `Display` of `nostr_sdk::PublicKey`.
///
/// It is trusted that a key is displayed as the 64 lower-case hexadecimal
/// digits of its bytes.
#[verifier::external_body]
fn public_key_to_string(bytes: [u8; 32]) -> (res: String)
    ensures
        res@ == key_text(bytes@),
{
    nostr_sdk::PublicKey::from_byte_array(bytes).to_string()
}

impl PublicKey {
    /// The text under which the key is stored and looked up.
    pub fn text(&self) -> (res: String)
        ensures
            res@ == key_text(self@),
    {
        public_key_to_string(self.bytes)
    }

    /// The key that `text` stands for: hexadecimal digits, a `npub` or a
    /// `nostr:` address.
    pub fn read(text: &str) -> (res: Option<PublicKey>)
        ensures
            match res {
                Some(key) => Some(key@),
                None => None,
            } == read_key(text@),
            is_hex_key(text@) ==> (res matches Some(key) && key@ == hex_key(text@)),
            !is_hex_key(text@) ==> match res {
                Some(key) => parsed_public_key(text@) == Some(key@),
                None => parsed_public_key(text@) is None,
            },
    {
        match public_key_from_str(text) {
            Some(bytes) => Some(PublicKey { bytes }),
            None => None,
        }
    }
}

/// A key is read back from the text it is stored as.
pub proof fn stored_key_reads_back(key: Seq<u8>)
    requires
        key.len() == 32,
    ensures
        read_key(key_text(key)) == Some(key),
{
    let text = key_text(key);
    assert forall|i: int| 0 <= i < 64 implies hex_value(#[trigger] text[i]) is Some by {
        digit_reads_back(key[i / 2] as int / 16);
        digit_reads_back(key[i / 2] as int % 16);
    }
    assert forall|i: int| 0 <= i < 32 implies hex_key(text)[i] == key[i] by {
        digit_reads_back(key[i] as int / 16);
        digit_reads_back(key[i] as int % 16);
        assert((2 * i) / 2 == i && (2 * i) % 2 == 0);
        assert((2 * i + 1) / 2 == i && (2 * i + 1) % 2 == 1);
    }
    assert(hex_key(text) =~= key);
}

/// A digit has the value it was written for.
proof fn digit_reads_back(value: int)
    requires
        0 <= value < 16,
    ensures
        hex_value(hex_digit(value)) == Some(value),
{
}

/// Keys that differ are stored as texts that differ.
pub proof fn stored_keys_differ(one: Seq<u8>, other: Seq<u8>)
    requires
        one.len() == 32,
        other.len() == 32,
    ensures
        key_text(one) == key_text(other) <==> one == other,
{
    stored_key_reads_back(one);
    stored_key_reads_back(other);
}

/// Every text of 64 hexadecimal digits is read, as the bytes that its digits
/// spell in pairs; what becomes of any other text is left to the reader of
/// addresses.
pub proof fn digits_are_always_read(text: Seq<char>, i: int)
    ensures
        !is_hex_key(text) ==> read_key(text) == parsed_public_key(text),
        is_hex_key(text) ==> {
            &&& read_key(text) is Some
            &&& read_key(text)->0.len() == 32
            &&& 0 <= i < 32 ==> read_key(text)->0[i] as int == 16 * hex_value(text[2 * i])->0
                + hex_value(text[2 * i + 1])->0
        },
{
    if is_hex_key(text) && 0 <= i < 32 {
        assert(hex_value(text[2 * i]) is Some);
        assert(hex_value(text[2 * i + 1]) is Some);
    }
}

/// Capitals do not matter to the digits of a key.
pub proof fn capitals_do_not_matter_to_digits(text: Seq<char>, other: Seq<char>)
    requires
        is_hex_key(text),
        other.len() == 64,
        forall|i: int|
            0 <= i < 64 ==> #[trigger] other[i] == text[i] || 'a' <= text[i] <= 'f'
                && other[i] as int == text[i] as int - 32,
    ensures
        read_key(other) == read_key(text),
{
    assert forall|i: int| 0 <= i < 64 implies hex_value(#[trigger] other[i]) == hex_value(
        text[i],
    ) && hex_value(text[i]) is Some by {}
    assert(hex_key(other) =~= hex_key(text));
}

/// The text of a key is 64 characters long, and none of them is a capital.
pub proof fn keys_are_stored_in_lower_case(key: Seq<u8>, i: int)
    requires
        key.len() == 32,
    ensures
        key_text(key).len() == 64,
        0 <= i < 64 ==> '0' <= key_text(key)[i] <= '9' || 'a' <= key_text(key)[i] <= 'f',
{
}

} // verus!
