//! Message headers, held by the `async_nats` crate.
use async_nats::HeaderMap;
use vstd::prelude::*;

verus! {

/// The headers of a message.
#[verifier::external_type_specification]
#[verifier::external_body]
pub struct ExHeaderMap(async_nats::HeaderMap);

/// The values that headers hold under each name. A header whose name the `async_nats` crate
/// predefines, such as `Nats-Stream`, and that was read from a message or set by that constant, is
/// held apart and is not among them.
pub uninterp spec fn header_values(headers: HeaderMap) -> Map<Seq<char>, Seq<Seq<char>>>;

/// The first value under a name.
pub open spec fn first_value(headers: HeaderMap, name: Seq<char>) -> Option<Seq<char>> {
    let values = header_values(headers);
    if values.contains_key(name) && values[name].len() > 0 {
        Some(values[name][0])
    } else {
        None
    }
}

/// `HeaderMap::new`: no headers.
#[verifier::external_body]
fn new_headers() -> (r: HeaderMap)
    ensures
        (header_values(r) == Map::<Seq<char>, Seq<Seq<char>>>::empty()),
{
    HeaderMap::new()
}

/// `HeaderMap::insert` with a name given as text: the name has that one value.
#[verifier::external_body]
fn insert_header(headers: &mut HeaderMap, name: &str, value: &str)
    ensures
        header_values(*final(headers)) == header_values(*old(headers)).insert(name@, seq![value@]),
{
    headers.insert(name, value);
}

/// `HeaderMap::get` with a name given as text: the first value under the name.
#[verifier::external_body]
pub(crate) fn get_header(headers: &HeaderMap, name: &str) -> (r: Option<String>)
    ensures
        r.deep_view() == first_value(*headers, name@),
{
    headers.get(name).map(|value| value.as_str().to_string())
}

/// Headers with a single one in them.
pub fn single_header(name: &str, value: &str) -> (r: HeaderMap)
    ensures
        (header_values(r) == Map::<Seq<char>, Seq<Seq<char>>>::empty().insert(
            name@,
            seq![value@],
        )),
        first_value(r, name@) == Some(value@),
{
    let mut headers = new_headers();
    insert_header(&mut headers, name, value);
    headers
}

} // verus!
