//! Hexadecimal text, through the hex codec.
use vstd::prelude::*;

verus! {

/// The lower-case hexadecimal digit for a value below sixteen.
pub open spec fn hex_digit(n: int) -> char {
    seq!['0', '1', '2', '3', '4', '5', '6', '7', '8', '9', 'a', 'b', 'c', 'd', 'e', 'f'][n]
}

/// Two lower-case hexadecimal digits per byte, most significant first.
pub open spec fn hex_of(b: Seq<u8>) -> Seq<char>
    decreases b.len(),
{
    if b.len() == 0 {
        Seq::empty()
    } else {
        hex_of(b.drop_last()) + seq![
            hex_digit(b.last() as int / 16),
            hex_digit(b.last() as int % 16),
        ]
    }
}

/// The value of a hexadecimal digit of either case, if `c` is one.
pub open spec fn hex_value(c: char) -> Option<int> {
    if '0' <= c && c <= '9' {
        Some(c as int - '0' as int)
    } else if 'a' <= c && c <= 'f' {
        Some(c as int - 'a' as int + 10)
    } else if 'A' <= c && c <= 'F' {
        Some(c as int - 'A' as int + 10)
    } else {
        None
    }
}

/// Text made of an even number of hexadecimal digits.
pub open spec fn is_hex_text(s: Seq<char>) -> bool {
    &&& s.len() % 2 == 0
    &&& forall|i: int| 0 <= i < s.len() ==> (#[trigger] hex_value(s[i])) is Some
}

/// The bytes that hexadecimal text `s` spells, two digits per byte.
pub open spec fn bytes_of_hex(s: Seq<char>) -> Seq<u8> {
    Seq::new(
        s.len() / 2,
        |i: int| (hex_value(s[2 * i]).unwrap() * 16 + hex_value(s[2 * i + 1]).unwrap()) as u8,
    )
}

/// Relies on hex::encode: two lower-case digits for each byte, in order.
#[verifier::external_body]
pub(crate) fn encode_hex(bytes: &[u8]) -> (r: String)
    ensures
        r@ == hex_of(bytes@),
{
    hex::encode(bytes)
}

/// Relies on hex::decode: it accepts exactly the text made of an even number
/// of hexadecimal digits of either case, and then gives the bytes they spell.
/// On other text it gives its error, whose message is never empty.
#[verifier::external_body]
pub(crate) fn decode_hex(text: &str) -> (r: Result<Vec<u8>, String>)
    ensures
        r is Ok <==> is_hex_text(text@),
        r matches Ok(v) ==> v@ == bytes_of_hex(text@),
        r matches Err(e) ==> e@.len() > 0,
{
    match hex::decode(text) {
        Ok(v) => Ok(v),
        Err(e) => Err(e.to_string()),
    }
}

} // verus!
