use vstd::prelude::*;

use crate::error::TinyIdError;
use crate::tiny_id::{be_array, checked_array, sentinel, TinyId};
use crate::trusted::slice_to_array;

verus! {

impl vstd::std_specs::convert::TryFromSpecImpl<u64> for TinyId {
    open spec fn obeys_try_from_spec() -> bool {
        true
    }

    open spec fn try_from_spec(v: u64) -> Result<Self, TinyIdError> {
        checked_array(be_array(v))
    }
}

impl TryFrom<u64> for TinyId {
    type Error = TinyIdError;

    fn try_from(value: u64) -> Result<Self, TinyIdError> {
        Self::from_u64(value)
    }
}

impl vstd::std_specs::convert::TryFromSpecImpl<[u8; 8]> for TinyId {
    open spec fn obeys_try_from_spec() -> bool {
        true
    }

    open spec fn try_from_spec(v: [u8; 8]) -> Result<Self, TinyIdError> {
        checked_array(v)
    }
}

impl TryFrom<[u8; 8]> for TinyId {
    type Error = TinyIdError;

    fn try_from(value: [u8; 8]) -> Result<Self, TinyIdError> {
        Self::from_bytes(value)
    }
}

impl vstd::std_specs::convert::TryFromSpecImpl<&[u8; 8]> for TinyId {
    open spec fn obeys_try_from_spec() -> bool {
        true
    }

    open spec fn try_from_spec(v: &[u8; 8]) -> Result<Self, TinyIdError> {
        checked_array(*v)
    }
}

impl TryFrom<&[u8; 8]> for TinyId {
    type Error = TinyIdError;

    fn try_from(value: &[u8; 8]) -> Result<Self, TinyIdError> {
        Self::from_bytes(*value)
    }
}

impl std::str::FromStr for TinyId {
    type Err = TinyIdError;

    fn from_str(s: &str) -> Result<Self, TinyIdError> {
        TinyId::from_str(s)
    }
}

impl Default for TinyId {
    fn default() -> (r: Self)
        ensures
            r@ == sentinel(),
    {
        Self::null()
    }
}

impl TinyId {
    /// Builds an identifier from a slice: `Conversion` with the message of the
    /// failed copy unless it holds eight bytes, then as [`TinyId::from_bytes`].
    pub fn from_slice(value: &[u8]) -> (r: Result<Self, TinyIdError>)
        ensures
            value@.len() != 8 ==> r matches Err(TinyIdError::Conversion(_)),
            value@.len() == 8 ==> crate::tiny_id::view_result(r) == crate::tiny_id::checked_bytes(
                value@,
            ),
    {
        match slice_to_array(value) {
            Ok(a) => Self::from_bytes(a),
            Err(msg) => Err(TinyIdError::Conversion(msg)),
        }
    }
}

} // verus!
