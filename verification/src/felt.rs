//! Field elements of the machine as plain bytes, and the two textual forms
//! in which a value is reported: its decimal numeral and, where it packs
//! one, its short string.

use cairo_lang_runner::short_string::as_cairo_short_string;
use cairo_vm::Felt252;
use vstd::arithmetic::power2::pow2;
use vstd::prelude::*;

verus! {

/// The prime of the field, `2^251 + 17 * 2^192 + 1`.
pub open spec fn prime() -> nat {
    pow2(251) + 17 * pow2(192) + 1
}

/// The number that a big-endian byte sequence writes in base 256.
pub open spec fn be_value(bytes: Seq<u8>) -> nat
    decreases bytes.len(),
{
    if bytes.len() == 0 {
        0
    } else {
        be_value(bytes.drop_last()) * 256 + bytes.last() as nat
    }
}

/// The shortest big-endian byte sequence that writes `n`; a single zero
/// byte for zero.
pub open spec fn be_bytes(n: nat) -> Seq<u8>
    decreases n,
{
    if n < 256 {
        seq![n as u8]
    } else {
        be_bytes(n / 256).push((n % 256) as u8)
    }
}

/// The character of a decimal digit.
pub open spec fn digit(d: nat) -> char
    recommends
        d < 10,
{
    ((48 + d) as u8) as char
}

/// The decimal numeral of `n`, without sign or leading zeros.
pub open spec fn decimal(n: nat) -> Seq<char>
    decreases n,
{
    if n < 10 {
        seq![digit(n)]
    } else {
        decimal(n / 10).push(digit(n % 10))
    }
}

/// Bytes that may stand in a short string: the graphic ASCII characters,
/// the space, and the tab, line feed, form feed and carriage return.
pub open spec fn is_printable(byte: u8) -> bool {
    (0x21 <= byte <= 0x7e) || byte == 0x20 || byte == 0x09 || byte == 0x0a || byte == 0x0c
        || byte == 0x0d
}

/// The number of bytes that stand before the first zero byte.
pub open spec fn text_len(bytes: Seq<u8>) -> nat
    decreases bytes.len(),
{
    if bytes.len() == 0 || bytes[0] == 0 {
        0
    } else {
        1 + text_len(bytes.skip(1))
    }
}

/// The short string that `n` packs, if it packs one: the bytes of `n`
/// before their first zero, when all of them are printable and only zero
/// bytes follow.
pub open spec fn short_string(n: nat) -> Option<Seq<char>> {
    let bytes = be_bytes(n);
    let len = text_len(bytes);
    if (forall|i: int| 0 <= i < len ==> is_printable(#[trigger] bytes[i])) && (forall|i: int|
        len <= i < bytes.len() ==> #[trigger] bytes[i] == 0) {
        Some(Seq::new(len, |i: int| bytes[i] as char))
    } else {
        None
    }
}

/// A field element, held as 32 big-endian bytes. Bytes that write a
/// number at or above the prime stand for that number reduced by it.
#[derive(Clone, Copy, Debug)]
pub struct FieldElement {
    pub bytes: [u8; 32],
}

impl FieldElement {
    /// The number in `0..prime()` that the element stands for.
    pub open spec fn value(&self) -> nat {
        be_value(self.bytes@) % prime()
    }

    /// The element that 32 big-endian bytes write.
    pub fn from_bytes_be(bytes: [u8; 32]) -> (felt: Self)
        ensures
            felt.bytes == bytes,
    {
        FieldElement { bytes }
    }

    /// The 32 big-endian bytes of the element.
    pub fn to_bytes_be(&self) -> (bytes: [u8; 32])
        ensures
            bytes == self.bytes,
    {
        self.bytes
    }

    /// The decimal numeral of the element.
    pub fn to_decimal(&self) -> (text: String)
        ensures
            text@ == decimal(self.value()),
    {
        felt_display(self)
    }

    /// The short string that the element packs, if it packs one.
    pub fn to_short_string(&self) -> (text: Option<String>)
        ensures
            text is Some <==> short_string(self.value()) is Some,
            text is Some ==> text.unwrap()@ == short_string(self.value()).unwrap(),
    {
        felt_short_string(self)
    }
}

/// `Display` of `starknet_types_core::felt::Felt`, on the element that
/// `Felt::from_bytes_be` makes of the bytes. Trusted: `from_bytes_be`
/// reduces the number modulo the prime, and `Display` writes the reduced
/// number in decimal.
#[verifier::external_body]
fn felt_display(felt: &FieldElement) -> (text: String)
    ensures
        text@ == decimal(felt.value()),
{
    Felt252::from_bytes_be(&felt.bytes).to_string()
}

/// `cairo_lang_runner::short_string::as_cairo_short_string`, on the
/// element that `Felt::from_bytes_be` makes of the bytes. Trusted: it
/// walks the shortest big-endian bytes of the reduced number, collects
/// printable bytes up to the first zero byte, and gives nothing when it
/// meets another byte before that zero or a non-zero byte after it.
#[verifier::external_body]
fn felt_short_string(felt: &FieldElement) -> (text: Option<String>)
    ensures
        text is Some <==> short_string(felt.value()) is Some,
        text is Some ==> text.unwrap()@ == short_string(felt.value()).unwrap(),
{
    as_cairo_short_string(&Felt252::from_bytes_be(&felt.bytes))
}

} // verus!
