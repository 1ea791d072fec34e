use vstd::prelude::*;
use vstd::utf8::encode_utf8;
use vstd::string::*;

verus! {

/// The number of bytes that the UTF-8 encoding of `s` takes.
pub open spec fn byte_len(s: Seq<char>) -> nat {
    encode_utf8(s).len()
}

/// The decimal digit for `d` (< 10).
pub open spec fn digit_char(d: nat) -> char {
    ((48 + d) as u32) as char
}

/// The decimal notation of `n`, without leading zeros.
pub open spec fn decimal(n: nat) -> Seq<char>
    decreases n,
{
    if n < 10 {
        seq![digit_char(n)]
    } else {
        decimal(n / 10).push(digit_char(n % 10))
    }
}

/// Calls `String::len`, which the standard library documents as the length of
/// the string in bytes: the length of its UTF-8 encoding.
#[verifier::external_body]
pub(crate) fn string_byte_len(s: &String) -> (res: usize)
    ensures
        res == byte_len(s@),
{
    s.len()
}

/// Calls `String::push`, which appends the character to the end of the string.
#[verifier::external_body]
pub(crate) fn string_push(s: &mut String, c: char)
    ensures
        final(s)@ == old(s)@.push(c),
{
    s.push(c)
}

/// Calls `String::pop`, which removes the last character and returns it, or
/// returns `None` and leaves the string as it is when it is empty.
#[verifier::external_body]
pub(crate) fn string_pop(s: &mut String) -> (res: Option<char>)
    ensures
        old(s)@.len() == 0 ==> res is None && final(s)@ == old(s)@,
        old(s)@.len() > 0 ==> res == Some(old(s)@.last()) && final(s)@ == old(s)@.drop_last(),
{
    s.pop()
}

/// Writes a `u8` with `u8::to_string`, which formats it through `Display`: in
/// decimal notation, without leading zeros.
#[verifier::external_body]
pub(crate) fn u8_decimal(n: u8) -> (res: String)
    ensures
        res@ == decimal(n as nat),
{
    n.to_string()
}

/// The status line after a right guess: "Correct! Score: " and the score in decimal.
pub fn correct_guess_message(score: u8) -> (res: String)
    ensures
        res@ == "Correct! Score: "@ + decimal(score as nat),
{
    let mut msg = String::from_str("Correct! Score: ");
    let digits = u8_decimal(score);
    msg.append(digits.as_str());
    msg
}

} // verus!
