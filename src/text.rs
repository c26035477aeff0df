//! Text that outside code reads or writes for the library: UTF-8, TOML,
//! lower case, and member ids in hexadecimal.
use vstd::prelude::*;

verus! {

#[verifier::external_type_specification]
#[verifier::external_body]
#[verifier::reject_recursive_types(K)]
#[verifier::reject_recursive_types(V)]
pub struct ExTomlMap<K, V>(toml::map::Map<K, V>);

#[verifier::external_type_specification]
#[verifier::external_body]
pub struct ExTomlValue(toml::Value);

/// Whether a text is a valid TOML document. Parsing depends on the text alone.
pub uninterp spec fn toml_table_parses(s: Seq<char>) -> bool;

/// Relies on toml::from_str, read as a table: it succeeds exactly on valid TOML documents.
#[verifier::external_body]
pub(crate) fn parse_toml_table(s: &str) -> (r: Option<toml::Table>)
    ensures
        r is Some <==> toml_table_parses(s@),
{
    toml::from_str::<toml::Table>(s).ok()
}

/// `b` is UTF-8 as std accepts it: well formed, and no scalar above U+10FFFF,
/// which is a lead byte above F4, or F4 followed by 90 or more.
pub open spec fn is_utf8_text(b: Seq<u8>) -> bool {
    &&& vstd::utf8::valid_utf8(b)
    &&& forall|i: int| 0 <= i < b.len() ==> #[trigger] b[i] < 0xf5
    &&& forall|i: int| 0 <= i < b.len() - 1 && #[trigger] b[i] == 0xf4 ==> b[i + 1] < 0x90
}

/// Relies on std::str::from_utf8: it accepts exactly the UTF-8 byte strings
/// and reads them as the characters they encode.
#[verifier::external_body]
pub(crate) fn utf8_text(b: &[u8]) -> (r: Option<&str>)
    ensures
        r is Some <==> is_utf8_text(b@),
        r matches Some(s) ==> s@ == vstd::utf8::decode_utf8(b@),
{
    std::str::from_utf8(b).ok()
}

/// The lower-case form of a text. It depends on the characters alone.
pub uninterp spec fn lower_of(s: Seq<char>) -> Seq<char>;

/// Relies on str::to_lowercase: the lower-case form of the text.
#[verifier::external_body]
pub(crate) fn lowercase(s: &str) -> (r: String)
    ensures
        r@ == lower_of(s@),
{
    s.to_lowercase()
}

/// The hexadecimal digit of `d`, in lower case.
pub open spec fn hex_digit(d: int) -> char {
    if d == 0 { '0' } else if d == 1 { '1' } else if d == 2 { '2' } else if d == 3 { '3' }
    else if d == 4 { '4' } else if d == 5 { '5' } else if d == 6 { '6' } else if d == 7 { '7' }
    else if d == 8 { '8' } else if d == 9 { '9' } else if d == 10 { 'a' } else if d == 11 { 'b' }
    else if d == 12 { 'c' } else if d == 13 { 'd' } else if d == 14 { 'e' } else { 'f' }
}

/// The last `n` hexadecimal digits of `x`, most significant first.
pub open spec fn hex_text(x: nat, n: nat) -> Seq<char>
    decreases n,
{
    if n == 0 {
        Seq::empty()
    } else {
        hex_text(x / 16, (n - 1) as nat).push(hex_digit((x % 16) as int))
    }
}

/// Relies on uuid's Uuid::from_u128 and its simple form: the number in
/// big-endian order, written as 32 lower-case hexadecimal digits.
#[verifier::external_body]
pub(crate) fn hex_id(x: u128) -> (r: String)
    ensures
        r@ == hex_text(x as nat, 32),
{
    uuid::Uuid::from_u128(x).simple().to_string()
}

/// Relies on toml::to_string: the text of a TOML table, as bytes.
#[verifier::external_body]
pub(crate) fn toml_table_bytes(t: &toml::Table) -> (r: Option<Vec<u8>>) {
    toml::to_string(t).ok().map(String::into_bytes)
}

} // verus!
