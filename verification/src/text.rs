//! What the library has from std for text: the validation of UTF-8, the
//! conversion to lower case, replacement, and the formatting of numbers.

use vstd::prelude::*;
use vstd::utf8::*;

verus! {

/// `String::from_utf8`: the bytes become a string exactly when they are valid
/// UTF-8, and the string is then their decoding.
#[verifier::external_body]
pub(crate) fn string_from_utf8(bytes: Vec<u8>) -> (r: Result<String, std::string::FromUtf8Error>)
    ensures
        r is Ok <==> valid_utf8(bytes@),
        r is Ok ==> r->Ok_0@ == decode_utf8(bytes@),
{
    String::from_utf8(bytes)
}

/// The lowercase equivalent of a string, as `str::to_lowercase` gives it.
pub uninterp spec fn lowercased(s: Seq<char>) -> Seq<char>;

/// `str::to_lowercase`: the lowercase equivalent of the string.
#[verifier::external_body]
pub(crate) fn to_lowercase(s: &str) -> (r: String)
    ensures
        r@ == lowercased(s@),
{
    s.to_lowercase()
}

/// A string with all matches of a pattern replaced by another string, as
/// `str::replace` gives it.
pub uninterp spec fn replaced(s: Seq<char>, from: Seq<char>, to: Seq<char>) -> Seq<char>;

/// `str::replace`: the string with all matches of `from` replaced by `to`.
#[verifier::external_body]
pub(crate) fn replace(s: &str, from: &str, to: &str) -> (r: String)
    ensures
        r@ == replaced(s@, from@, to@),
{
    s.replace(from, to)
}

/// A number in decimal, as `usize::to_string` gives it.
pub uninterp spec fn decimal_text(n: nat) -> Seq<char>;

/// `usize::to_string`: the number in decimal.
#[verifier::external_body]
pub(crate) fn decimal(n: usize) -> (r: String)
    ensures
        r@ == decimal_text(n as nat),
{
    n.to_string()
}

/// A byte in hexadecimal after `0x`, as the format `{:#x}` gives it.
pub uninterp spec fn hexadecimal_text(n: u8) -> Seq<char>;

/// `format!` with `{:#x}`: the number in hexadecimal, after `0x`.
#[verifier::external_body]
pub(crate) fn hexadecimal(n: u8) -> (r: String)
    ensures
        r@ == hexadecimal_text(n),
{
    format!("{:#x}", n)
}

/// Bytes as a list of hexadecimal numbers, as the format `{:x?}` gives
/// them.
pub uninterp spec fn hex_dump_text(bytes: Seq<u8>) -> Seq<char>;

/// `format!` with `{:x?}`: the bytes as a list of hexadecimal numbers.
#[verifier::external_body]
pub(crate) fn hex_dump(bytes: &[u8]) -> (r: String)
    ensures
        r@ == hex_dump_text(bytes@),
{
    format!("{:x?}", bytes)
}

/// `FromUtf8Error::to_string`: the description that std gives of the error.
#[verifier::external_body]
pub(crate) fn utf8_error_text(e: &std::string::FromUtf8Error) -> String {
    e.to_string()
}

} // verus!
