use vstd::prelude::*;

use cosmwasm_std::Response;

verus! {

#[verifier::external_type_specification]
#[verifier::external_body]
#[verifier::reject_recursive_types(T)]
pub struct ExResponse<T>(cosmwasm_std::Response<T>);

/// The default payload type of `Response`, which the signatures here use.
#[verifier::external_type_specification]
#[verifier::external_body]
pub struct ExEmpty(cosmwasm_std::Empty);

/// The attributes of a response, as (key, value) pairs in the order they
/// were added.
pub uninterp spec fn response_attributes(r: Response) -> Seq<(Seq<char>, Seq<char>)>;

/// Whether `key` may name an attribute: keys that start with an underscore
/// are reserved by the host.
pub open spec fn attribute_key_ok(key: Seq<char>) -> bool {
    key.len() == 0 || key[0] != '_'
}

/// Relies on cosmwasm_std::Response::new: a response with no attributes.
#[verifier::external_body]
pub(crate) fn new_response() -> (r: Response)
    ensures
        response_attributes(r) == Seq::<(Seq<char>, Seq<char>)>::empty(),
{
    Response::new()
}

/// Relies on cosmwasm_std::Response::add_attribute: the pair is appended to
/// the attributes. The key may not start with an underscore, on which
/// `Attribute::new` panics in debug builds.
#[verifier::external_body]
pub(crate) fn add_attribute(r: Response, key: &str, value: String) -> (out: Response)
    requires
        attribute_key_ok(key@),
    ensures
        response_attributes(out) == response_attributes(r).push((key@, value@)),
{
    r.add_attribute(key, value)
}

/// The digits of `n`, most significant first, without leading zeros.
pub open spec fn digits(n: nat) -> Seq<char>
    decreases n,
{
    let d = seq![(('0' as nat) + n % 10) as char];
    if n < 10 {
        d
    } else {
        digits(n / 10) + d
    }
}

/// `n` written in decimal, with a leading `-` when it is negative.
pub open spec fn decimal(n: int) -> Seq<char> {
    if n < 0 {
        seq!['-'] + digits((-n) as nat)
    } else {
        digits(n as nat)
    }
}

/// Relies on `ToString` for `i32` (its `Display`): the decimal form of `n`.
#[verifier::external_body]
pub(crate) fn decimal_text(n: i32) -> (r: String)
    ensures
        r@ == decimal(n as int),
{
    n.to_string()
}

} // verus!
