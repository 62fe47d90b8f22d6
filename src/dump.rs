use vstd::prelude::*;

verus! {

/// The lowercase hexadecimal digit `d`, for `0 <= d < 16`.
pub open spec fn hex_digit(d: int) -> char {
    seq!['0', '1', '2', '3', '4', '5', '6', '7', '8', '9', 'a', 'b', 'c', 'd', 'e', 'f'][d]
}

/// Two lowercase hexadecimal digits per byte, high nibble first.
pub open spec fn hex_text(b: Seq<u8>) -> Seq<char>
    decreases b.len(),
{
    if b.len() == 0 {
        Seq::empty()
    } else {
        hex_text(b.drop_last()) + seq![
            hex_digit((b.last() / 16) as int),
            hex_digit((b.last() % 16) as int),
        ]
    }
}

/// Relies on hex::encode: two lowercase digits per byte, high nibble
/// first.
#[verifier::external_body]
fn hex_encode(b: &Vec<u8>) -> (r: String)
    ensures
        r@ == hex_text(b@),
{
    hex::encode(b)
}

/// The line that shows a stored state object: a fixed prefix, then the
/// object's bytes in hexadecimal.
pub fn state_dump_line(state: &Vec<u8>) -> (r: String)
    ensures
        r@ == "Cbor hex state : "@ + hex_text(state@),
{
    let mut s = String::from_str("Cbor hex state : ");
    let h = hex_encode(state);
    s.append(h.as_str());
    s
}

} // verus!
