//! A tiny eight-byte identifier that is easy to read and type.
//!
//! Each byte of a well-formed identifier is drawn from a fixed alphabet of
//! sixty-four symbols. The identifier converts losslessly between its text,
//! its big-endian `u64` and its raw bytes, and the all-zero value is reserved
//! as the null identifier.
use vstd::prelude::*;

mod conversions;
mod error;
mod trusted;
mod tiny_id;

pub use error::{message, TinyIdError};
pub use tiny_id::TinyId;
pub use tiny_id::{
    all_letters, be_array, be_bytes, be_u64, checked_array, checked_bytes, checked_text,
    is_letter, letter_of, padded, render, sentinel, text_bytes, text_ends_with, text_starts_with,
    valid_bytes, view_result,
};
pub use tiny_id::{
    lemma_affix_bounds, lemma_alphabet_is_table, lemma_bytes_round_trip, lemma_integer_round_trip, lemma_null_not_valid,
    lemma_parse_rejections, lemma_representations_agree, lemma_text_of_well_formed,
    lemma_text_round_trip, lemma_u64_round_trip, lemma_view_determines,
    lemma_well_formed_is_valid,
};

verus! {

} // verus!
