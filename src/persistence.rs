//! What the document store hands back, made into plain results: documents
//! that failed to decode are dropped, a failed query gives nothing, and
//! identifiers are read from their text.
use vstd::prelude::*;

use mongodb::bson::oid::ObjectId;

verus! {

/// bson's `ObjectId`, carried through as an opaque value.
#[verifier::external_type_specification]
#[verifier::external_body]
pub struct ExObjectId(ObjectId);

/// The documents among a cursor's results that decoded, in order.
pub open spec fn decoded<T, E>(s: Seq<Result<T, E>>) -> Seq<T>
    decreases s.len(),
{
    if s.len() == 0 {
        Seq::empty()
    } else {
        let d = decoded(s.drop_last());
        match s.last() {
            Ok(t) => d.push(t),
            Err(_) => d,
        }
    }
}

/// Keeps the documents that decoded, in the order the cursor gave them.
pub fn consume_cursor_into_owning_vec<T, E>(results: Vec<Result<T, E>>) -> (r: Vec<T>)
    ensures
        r@ == decoded(results@),
{
    let ghost all = results@;
    let mut rest = results;
    let total = rest.len();
    let mut out: Vec<T> = Vec::new();
    let mut k: usize = 0;
    assert(all.subrange(0, 0) =~= Seq::<Result<T, E>>::empty());
    while rest.len() > 0
        invariant
            k <= all.len(),
            all.len() == total,
            rest@ == all.subrange(k as int, all.len() as int),
            out@ == decoded(all.subrange(0, k as int)),
        decreases rest.len(),
    {
        let item = rest.remove(0);
        assert(all.subrange(0, k + 1).drop_last() =~= all.subrange(0, k as int));
        match item {
            Ok(t) => out.push(t),
            Err(_) => {},
        }
        k = k + 1;
        assert(rest@ =~= all.subrange(k as int, all.len() as int));
    }
    assert(all.subrange(0, all.len() as int) =~= all);
    out
}

/// As `consume_cursor_into_owning_vec`; a query that failed gives no documents.
pub fn consume_cursor_into_owning_vec_option<T, E>(results: Option<Vec<Result<T, E>>>) -> (r: Vec<T>)
    ensures
        r@ == match results {
            Some(v) => decoded(v@),
            None => Seq::empty(),
        },
{
    match results {
        Some(v) => consume_cursor_into_owning_vec(v),
        None => Vec::new(),
    }
}

/// Whether `c` is a hexadecimal digit, in either case.
pub open spec fn is_hex_digit(c: char) -> bool {
    ('0' <= c && c <= '9') || ('a' <= c && c <= 'f') || ('A' <= c && c <= 'F')
}

/// Whether `s` is the text of an object id: 24 hexadecimal digits.
pub open spec fn is_object_id_text(s: Seq<char>) -> bool {
    s.len() == 24 && forall|i: int| 0 <= i < s.len() ==> #[trigger] is_hex_digit(s[i])
}

/// Relies on `ObjectId::parse_str` of bson: it decodes the text with
/// `hex::decode`, which takes an even number of hexadecimal digits, and
/// accepts exactly twelve bytes.
#[verifier::external_body]
fn parse_object_id(s: &str) -> (r: Option<ObjectId>)
    ensures
        r is Some <==> is_object_id_text(s@),
{
    ObjectId::parse_str(s).ok()
}

/// The object id written as `id`, if it is one.
pub fn get_object_id_from_str(id: &str) -> (r: Option<ObjectId>)
    ensures
        r is Some <==> is_object_id_text(id@),
{
    parse_object_id(id)
}

} // verus!
