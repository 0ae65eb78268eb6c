use vstd::prelude::*;

use crate::reply::{Body, Reply};

verus! {

#[verifier::external_type_specification]
#[verifier::external_body]
pub struct ExDecodeError(base64::DecodeError);

/// The bytes that `input` stands for in standard Base64 (trailing padding
/// optional), or `None` where `input` is not such an encoding.
pub uninterp spec fn base64_standard_decoded(input: Seq<u8>) -> Option<Seq<u8>>;

/// Calls `base64::decode`, which decodes with the standard alphabet.
/// Claimed: the call succeeds exactly when the input is a standard Base64
/// encoding, and then returns the bytes it encodes; both are given by the name
/// `base64_standard_decoded`, which depends on the input alone. The call panics
/// only where the input's length plus 3 overflows, which `requires` leaves out.
#[verifier::external_body]
fn base64_decode(input: &Vec<u8>) -> (r: Result<Vec<u8>, base64::DecodeError>)
    requires
        input@.len() + 3 <= usize::MAX,
    ensures
        match r {
            Ok(bytes) => base64_standard_decoded(input@) == Some(bytes@),
            Err(_) => base64_standard_decoded(input@) is None,
        },
{
    base64::decode(input)
}

/// Decodes a password hash that a client sent in Base64.
pub fn decode_passwh(passwh: &Vec<u8>) -> (r: Option<Vec<u8>>)
    requires
        passwh@.len() + 3 <= usize::MAX,
    ensures
        match r {
            Some(bytes) => base64_standard_decoded(passwh@) == Some(bytes@),
            None => base64_standard_decoded(passwh@) is None,
        },
{
    match base64_decode(passwh) {
        Ok(bytes) => Some(bytes),
        Err(_) => None,
    }
}

/// The first step of every request that carries a password hash: the decoded
/// hash, or the reply 400 with an empty body where the hash is not Base64.
pub fn passwh_or_bad_request<T>(passwh: &Vec<u8>) -> (r: Result<Vec<u8>, Reply<T>>)
    requires
        passwh@.len() + 3 <= usize::MAX,
    ensures
        match r {
            Ok(bytes) => base64_standard_decoded(passwh@) == Some(bytes@),
            Err(reply) => base64_standard_decoded(passwh@) is None && reply.is_empty_with(400)
                && reply.has_valid_status(),
        },
{
    match decode_passwh(passwh) {
        Some(bytes) => Ok(bytes),
        None => Err(Reply { status: 400, body: Body::Empty }),
    }
}

} // verus!
