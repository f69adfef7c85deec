use vstd::prelude::*;

verus! {

/// Relies on `fastrand::u64` over the full range: one draw from the
/// thread-local generator. Any value may come back.
#[verifier::external_body]
pub(crate) fn random_u64() -> (r: u64) {
    fastrand::u64(..)
}

/// Relies on `String::push`: the character is appended at the end.
pub assume_specification[ String::push ](s: &mut String, ch: char)
    ensures
        final(s)@ == old(s)@.push(ch),
;

/// Relies on `<[u8; 8]>::try_from(&[u8])`, which succeeds exactly when the
/// slice holds eight bytes and then copies them; on failure the error's
/// message is handed back.
#[verifier::external_body]
pub(crate) fn slice_to_array(s: &[u8]) -> (r: Result<[u8; 8], String>)
    ensures
        r is Ok <==> s@.len() == 8,
        r matches Ok(a) ==> a@ == s@,
{
    match <[u8; 8]>::try_from(s) {
        Ok(a) => Ok(a),
        Err(e) => Err(e.to_string()),
    }
}

} // verus!
