use vstd::prelude::*;
use vstd::utf8::{encode_utf8, encode_utf8_decode_utf8, encode_utf8_valid_utf8, valid_utf8};

verus! {

/// The query that the search runs.
pub fn search_query() -> (query: &'static str)
    ensures
        query@ == "fiat"@,
{
    "fiat"
}

/// The field that the search query is parsed against.
pub fn search_field() -> (field: &'static str)
    ensures
        field@ == "description"@,
{
    "description"
}

/// How many of the best hits the search returns.
pub const SEARCH_LIMIT: usize = 10;


/// `std::str::from_utf8`: where the bytes are valid UTF-8, the string that they
/// encode, as an owned `String`; `None` where they are not.
#[verifier::external_body]
fn str_from_utf8(bytes: &[u8]) -> (r: Option<String>)
    ensures
        r is Some <==> valid_utf8(bytes@),
        r matches Some(s) ==> encode_utf8(s@) == bytes@,
{
    match std::str::from_utf8(bytes) {
        Ok(s) => Some(s.to_string()),
        Err(_) => None,
    }
}

/// The id that a document's id bytes hold: `None` where they are not UTF-8.
pub fn id_from_bytes(bytes: &[u8]) -> (id: Option<String>)
    ensures
        id is Some <==> valid_utf8(bytes@),
        id matches Some(s) ==> encode_utf8(s@) == bytes@,
{
    str_from_utf8(bytes)
}

/// The bytes that a post document holds for an id are valid UTF-8, and the
/// only string that they encode is that id: reading them back gives the id.
pub proof fn id_bytes_read_back(id: Seq<char>)
    ensures
        valid_utf8(encode_utf8(id)),
        forall|s: Seq<char>| encode_utf8(s) == encode_utf8(id) ==> s == id,
{
    encode_utf8_valid_utf8(id);
    encode_utf8_decode_utf8(id);
    assert forall|s: Seq<char>| encode_utf8(s) == encode_utf8(id) implies s == id by {
        encode_utf8_decode_utf8(s);
    }
}

} // verus!
