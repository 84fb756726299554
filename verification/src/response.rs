//! The acknowledgement that a handler hands back to the host.
//!
//! A response is built by `cosmwasm_std`; this module states what the two
//! builder calls used by the handlers do to it.

use cosmwasm_std::Empty;
use cosmwasm_std::Response;
use vstd::prelude::*;

verus! {

/// `cosmwasm_std::Empty`, the message type of a response that sends no
/// custom messages. Nothing is claimed of its values.
#[verifier::external_type_specification]
#[verifier::external_body]
pub struct ExEmpty(Empty);

/// `cosmwasm_std::Response`, held as an opaque value: what is known of one
/// is what the two names below say of it.
#[verifier::external_type_specification]
#[verifier::external_body]
#[verifier::reject_recursive_types(T)]
pub struct ExResponse<T>(Response<T>);

/// The attributes of a response as `(key, value)` pairs, in the order in
/// which they were added.
pub uninterp spec fn response_attributes(r: Response) -> Seq<(Seq<char>, Seq<char>)>;

/// Whether a response carries its attributes and nothing more: no
/// sub-message, no event and no data payload.
pub uninterp spec fn only_attributes(r: Response) -> bool;

/// Whether `key` may name an attribute. Keys that begin with an underscore
/// are reserved by the host.
pub open spec fn valid_attribute_key(key: Seq<char>) -> bool {
    key.len() == 0 || key[0] != '_'
}

/// `Response::new`: a response with no attributes, sub-messages, events or
/// data.
#[verifier::external_body]
pub(crate) fn new_response() -> (r: Response)
    ensures
        response_attributes(r) == Seq::<(Seq<char>, Seq<char>)>::empty(),
        only_attributes(r),
{
    Response::new()
}

/// `Response::add_attribute`: appends the pair `(key, value)` to the
/// attributes and leaves everything else as it was. Reserved keys are left
/// out because debug builds of `cosmwasm_std` panic on them.
#[verifier::external_body]
pub(crate) fn add_attribute(r: Response, key: &str, value: &str) -> (out: Response)
    requires
        valid_attribute_key(key@),
    ensures
        response_attributes(out) == response_attributes(r).push((key@, value@)),
        only_attributes(out) == only_attributes(r),
{
    r.add_attribute(key, value)
}

} // verus!
