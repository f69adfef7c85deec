use vstd::prelude::*;

use vstd::string::{StrSliceExecFns, StringExecFns, StringSliceAdditionalSpecFns};
use vstd::utf8::{encode_utf8, is_ascii_chars, is_ascii_chars_encode_utf8};

use crate::error::TinyIdError;
use crate::trusted::random_u64;

verus! {

// ---------------------------------------------------------------------------
// The model: an identifier is a sequence of eight bytes.
// ---------------------------------------------------------------------------

/// A byte of the alphabet: `-`, `0`-`9`, `A`-`Z`, `_` or `a`-`z`.
pub open spec fn is_letter(b: u8) -> bool {
    b == 45 || (48 <= b <= 57) || (65 <= b <= 90) || b == 95 || (97 <= b <= 122)
}

/// Every byte of `s` is in the alphabet.
pub open spec fn all_letters(s: Seq<u8>) -> bool {
    forall|i: int| 0 <= i < s.len() ==> is_letter(#[trigger] s[i])
}

/// The storage of the null identifier: eight zero bytes.
pub open spec fn sentinel() -> Seq<u8> {
    Seq::new(8, |i: int| 0u8)
}

/// Validity: not the null identifier, and every byte in the alphabet.
pub open spec fn valid_bytes(s: Seq<u8>) -> bool {
    s != sentinel() && all_letters(s)
}

/// The text form: each byte shown as the character of the same code point.
pub open spec fn render(s: Seq<u8>) -> Seq<char> {
    s.map_values(|b: u8| b as char)
}

/// The UTF-8 bytes of the text form.
pub open spec fn text_bytes(s: Seq<u8>) -> Seq<u8> {
    encode_utf8(render(s))
}

/// Whether `p` is a prefix of the text form of `s`, with `p` at most eight bytes long.
pub open spec fn text_starts_with(s: Seq<u8>, p: Seq<u8>) -> bool {
    p.len() <= 8 && p.is_prefix_of(text_bytes(s))
}

/// Whether `p` is a suffix of the text form of `s`, with `p` at most eight bytes long.
pub open spec fn text_ends_with(s: Seq<u8>, p: Seq<u8>) -> bool {
    p.len() <= 8 && p.is_suffix_of(text_bytes(s))
}

/// `bytes` followed by zeros up to a length of eight.
pub open spec fn padded(bytes: Seq<u8>) -> Seq<u8> {
    Seq::new(8, |i: int| if i < bytes.len() { bytes[i] } else { 0u8 })
}

/// The big-endian bytes of `n`, most significant first.
pub open spec fn be_bytes(n: u64) -> Seq<u8> {
    seq![
        (n >> 56u64) as u8,
        (n >> 48u64) as u8,
        (n >> 40u64) as u8,
        (n >> 32u64) as u8,
        (n >> 24u64) as u8,
        (n >> 16u64) as u8,
        (n >> 8u64) as u8,
        n as u8,
    ]
}

/// The integer whose big-endian bytes are the eight bytes of `s`.
pub open spec fn be_u64(s: Seq<u8>) -> u64
    recommends
        s.len() == 8,
{
    (s[0] as u64) << 56u64 | (s[1] as u64) << 48u64 | (s[2] as u64) << 40u64 | (s[3] as u64)
        << 32u64 | (s[4] as u64) << 24u64 | (s[5] as u64) << 16u64 | (s[6] as u64) << 8u64 | (
    s[7] as u64)
}

/// The outcome of a validating construction from eight bytes.
pub open spec fn checked_bytes(s: Seq<u8>) -> Result<Seq<u8>, TinyIdError> {
    if valid_bytes(s) {
        Ok(s)
    } else {
        Err(TinyIdError::InvalidCharacters)
    }
}

/// The outcome of parsing text whose UTF-8 bytes are `bytes`.
pub open spec fn checked_text(bytes: Seq<u8>) -> Result<Seq<u8>, TinyIdError> {
    if bytes.len() != 8 {
        Err(TinyIdError::InvalidLength)
    } else {
        checked_bytes(bytes)
    }
}

/// The letter that generation picks for a random byte.
pub open spec fn letter_of(b: u8) -> u8 {
    TinyId::LETTERS[(b % 64) as int]
}

/// A construction result, seen through the storage of the identifier.
pub open spec fn view_result(r: Result<TinyId, TinyIdError>) -> Result<Seq<u8>, TinyIdError> {
    match r {
        Ok(id) => Ok(id@),
        Err(e) => Err(e),
    }
}

/// Every symbol of the alphabet table is a letter.
proof fn lemma_letters_in_alphabet()
    ensures
        forall|i: int| 0 <= i < 64 ==> is_letter(#[trigger] TinyId::LETTERS[i]),
{
    assert forall|i: int| 0 <= i < 64 implies is_letter(#[trigger] TinyId::LETTERS[i]) by {
        if i < 26 {
            assert(TinyId::LETTERS[i] == 97 + i);
        } else if i < 52 {
            assert(TinyId::LETTERS[i] == 39 + i);
        } else if i < 61 {
            assert(TinyId::LETTERS[i] == i - 3);
        }
    }
}

/// The bytes that `is_letter` accepts are exactly those of the alphabet table.
pub proof fn lemma_alphabet_is_table(b: u8)
    ensures
        is_letter(b) <==> exists|i: int| 0 <= i < 64 && #[trigger] TinyId::LETTERS[i] == b,
{
    lemma_letters_in_alphabet();
    if is_letter(b) {
        let i: int = if 97 <= b <= 122 {
            b - 97
        } else if 65 <= b <= 90 {
            b - 39
        } else if 49 <= b <= 57 {
            b + 3
        } else if b == 48 {
            61
        } else if b == 95 {
            62
        } else {
            63
        };
        assert(TinyId::LETTERS[i] == b);
    }
}

// ---------------------------------------------------------------------------
// The identifier.
// ---------------------------------------------------------------------------

/// An eight-byte identifier, easy to read and type, and not cryptographically
/// secure. Equality, ordering and hashing are those of the eight bytes.
#[derive(Clone, Copy, Debug, PartialEq, Eq, PartialOrd, Ord, Hash)]
pub struct TinyId {
    data: [u8; 8],
}

/// The checked construction from eight bytes, as a value of the type: the
/// identifier holding `a` when `a` is valid.
pub closed spec fn checked_array(a: [u8; 8]) -> Result<TinyId, TinyIdError> {
    if valid_bytes(a@) {
        Ok(TinyId { data: a })
    } else {
        Err(TinyIdError::InvalidCharacters)
    }
}

/// The big-endian bytes of `n`, as an array.
pub open spec fn be_array(n: u64) -> [u8; 8] {
    [
        (n >> 56u64) as u8,
        (n >> 48u64) as u8,
        (n >> 40u64) as u8,
        (n >> 32u64) as u8,
        (n >> 24u64) as u8,
        (n >> 16u64) as u8,
        (n >> 8u64) as u8,
        n as u8,
    ]
}

impl View for TinyId {
    type V = Seq<u8>;

    closed spec fn view(&self) -> Seq<u8> {
        self.data@
    }
}

impl TinyId {
    /// The number of symbols in the alphabet.
    pub const LETTER_COUNT: usize = 64;

    /// The alphabet, in the order generation indexes it.
    pub const LETTERS: [u8; 64] = [
        97, 98, 99, 100, 101, 102, 103, 104, 105, 106, 107, 108, 109,
        110, 111, 112, 113, 114, 115, 116, 117, 118, 119, 120, 121, 122,
        65, 66, 67, 68, 69, 70, 71, 72, 73, 74, 75, 76, 77,
        78, 79, 80, 81, 82, 83, 84, 85, 86, 87, 88, 89, 90,
        49, 50, 51, 52, 53, 54, 55, 56, 57, 48, 95, 45,
    ];

    /// The byte that fills the null identifier.
    pub const NULL_CHAR: u8 = 0;

    /// The storage of the null identifier.
    pub const NULL_DATA: [u8; 8] = [0, 0, 0, 0, 0, 0, 0, 0];

    /// Whether `byte` belongs to the alphabet.
    pub fn is_valid_byte(byte: u8) -> (r: bool)
        ensures
            r == is_letter(byte),
    {
        if byte == Self::NULL_CHAR {
            return false;
        }
        if byte == 45u8 {
            return true;
        }
        if byte >= 48u8 && byte <= 57u8 {
            return true;
        }
        if byte >= 65u8 && byte <= 90u8 {
            return true;
        }
        if byte == 95u8 {
            return true;
        }
        if byte >= 97u8 && byte <= 122u8 {
            return true;
        }
        false
    }

    /// The null identifier.
    pub fn null() -> (r: Self)
        ensures
            r@ == sentinel(),
    {
        let r = Self { data: Self::NULL_DATA };
        assert(r@ =~= sentinel());
        r
    }

    /// Whether this is the null identifier.
    pub fn is_null(self) -> (r: bool)
        ensures
            r == (self@ == sentinel()),
    {
        let mut i: usize = 0;
        while i < 8
            invariant
                i <= 8,
                forall|j: int| 0 <= j < i ==> self.data@[j] == 0,
            decreases 8 - i,
        {
            if self.data[i] != Self::NULL_CHAR {
                assert(self@[i as int] != sentinel()[i as int]);
                return false;
            }
            i = i + 1;
        }
        assert(self@ =~= sentinel());
        true
    }

    /// Whether this identifier is not null and every byte is in the alphabet.
    pub fn is_valid(self) -> (r: bool)
        ensures
            r == valid_bytes(self@),
    {
        if self.is_null() {
            return false;
        }
        let mut i: usize = 0;
        while i < 8
            invariant
                i <= 8,
                forall|j: int| 0 <= j < i ==> is_letter(#[trigger] self.data@[j]),
            decreases 8 - i,
        {
            if !Self::is_valid_byte(self.data[i]) {
                return false;
            }
            i = i + 1;
        }
        true
    }

    /// Overwrites this identifier with the null identifier.
    pub fn make_null(&mut self)
        ensures
            final(self)@ == sentinel(),
            !valid_bytes(final(self)@),
    {
        self.data = Self::NULL_DATA;
        assert(self@ =~= sentinel());
    }

    /// The eight bytes of storage.
    pub fn to_bytes(self) -> (r: [u8; 8])
        ensures
            r@ == self@,
    {
        self.data
    }

    /// Builds an identifier from eight bytes, failing with `InvalidCharacters`
    /// unless the result is valid.
    pub fn from_bytes(bytes: [u8; 8]) -> (r: Result<Self, TinyIdError>)
        ensures
            view_result(r) == checked_bytes(bytes@),
            r == checked_array(bytes),
    {
        let id = Self { data: bytes };
        if id.is_valid() {
            Ok(id)
        } else {
            Err(TinyIdError::InvalidCharacters)
        }
    }

    /// Builds an identifier from eight bytes without checking them.
    pub fn from_bytes_unchecked(bytes: [u8; 8]) -> (r: Self)
        ensures
            r@ == bytes@,
    {
        Self { data: bytes }
    }
    /// A new random identifier, from one draw of the thread-local generator.
    /// It is always valid, so never the null identifier.
    pub fn random() -> (r: Self)
        ensures
            valid_bytes(r@),
    {
        Self::from_random_u64(random_u64())
    }

    /// The identifier that generation makes of the random value `seed`: each
    /// of its big-endian bytes, taken modulo sixty-four, indexes the alphabet.
    /// Since sixty-four divides 256, a uniform `seed` gives uniform letters.
    pub fn from_random_u64(seed: u64) -> (r: Self)
        ensures
            r@ == be_bytes(seed).map_values(|b: u8| letter_of(b)),
            valid_bytes(r@),
    {
        let mut data: [u8; 8] = Self::from_u64_unchecked(seed).data;
        let mut i: usize = 0;
        while i < 8
            invariant
                i <= 8,
                data@.len() == 8,
                forall|j: int| 0 <= j < i ==> data@[j] == letter_of(be_bytes(seed)[j]),
                forall|j: int| i <= j < 8 ==> data@[j] == be_bytes(seed)[j],
            decreases 8 - i,
        {
            let b = data[i];
            data[i] = Self::LETTERS[(b as usize) % Self::LETTER_COUNT];
            i = i + 1;
        }
        let r = Self { data };
        assert(r@ =~= be_bytes(seed).map_values(|b: u8| letter_of(b)));
        proof {
            lemma_letters_in_alphabet();
            assert(r@[0] != sentinel()[0]);
        }
        r
    }

    /// Builds an identifier from the big-endian bytes of `n`, failing with
    /// `InvalidCharacters` unless the result is valid.
    pub fn from_u64(n: u64) -> (r: Result<Self, TinyIdError>)
        ensures
            view_result(r) == checked_bytes(be_bytes(n)),
            r == checked_array(be_array(n)),
    {
        let bytes: [u8; 8] = Self::from_u64_unchecked(n).data;
        assert(bytes@ =~= be_array(n)@);
        assert(bytes == be_array(n));
        Self::from_bytes(bytes)
    }

    /// Builds an identifier from the big-endian bytes of `n` without checking them.
    pub fn from_u64_unchecked(n: u64) -> (r: Self)
        ensures
            r@ == be_bytes(n),
    {
        let data: [u8; 8] = [
            (n >> 56u64) as u8,
            (n >> 48u64) as u8,
            (n >> 40u64) as u8,
            (n >> 32u64) as u8,
            (n >> 24u64) as u8,
            (n >> 16u64) as u8,
            (n >> 8u64) as u8,
            n as u8,
        ];
        assert(data@ =~= be_bytes(n));
        Self { data }
    }

    /// The storage read as a big-endian `u64`.
    pub fn to_u64(self) -> (r: u64)
        ensures
            r == be_u64(self@),
    {
        let d = self.data;
        (d[0] as u64) << 56u64 | (d[1] as u64) << 48u64 | (d[2] as u64) << 40u64 | (d[3] as u64)
            << 32u64 | (d[4] as u64) << 24u64 | (d[5] as u64) << 16u64 | (d[6] as u64) << 8u64 | (
        d[7] as u64)
    }

    /// Parses text of exactly eight bytes, each in the alphabet.
    ///
    /// Fails with `InvalidLength` when the text does not hold eight bytes, and
    /// with `InvalidCharacters` when one of them is outside the alphabet.
    pub fn from_str(s: &str) -> (r: Result<Self, TinyIdError>)
        ensures
            view_result(r) == checked_text(s.spec_bytes()),
    {
        let bytes = s.as_bytes();
        if bytes.len() != 8 {
            return Err(TinyIdError::InvalidLength);
        }
        let mut data: [u8; 8] = Self::NULL_DATA;
        let mut i: usize = 0;
        while i < 8
            invariant
                i <= 8,
                bytes@ == s.spec_bytes(),
                bytes@.len() == 8,
                forall|j: int| 0 <= j < i ==> data@[j] == bytes@[j],
                forall|j: int| 0 <= j < i ==> is_letter(#[trigger] bytes@[j]),
            decreases 8 - i,
        {
            let b = bytes[i];
            if !Self::is_valid_byte(b) {
                return Err(TinyIdError::InvalidCharacters);
            }
            data[i] = b;
            i = i + 1;
        }
        assert(data@ =~= bytes@);
        assert(bytes@[0] != sentinel()[0]);
        Ok(Self { data })
    }

    /// Copies the bytes of `s` into an identifier, zero-padded on the right,
    /// without checking them. Text longer than eight bytes is a caller error.
    pub fn from_str_unchecked(s: &str) -> (r: Self)
        requires
            s.spec_bytes().len() <= 8,
        ensures
            r@ == padded(s.spec_bytes()),
    {
        let bytes = s.as_bytes();
        let mut data: [u8; 8] = Self::NULL_DATA;
        let mut i: usize = 0;
        while i < bytes.len()
            invariant
                i <= bytes@.len() <= 8,
                bytes@ == s.spec_bytes(),
                forall|j: int| 0 <= j < i ==> data@[j] == bytes@[j],
                forall|j: int| i <= j < 8 ==> data@[j] == 0,
            decreases bytes@.len() - i,
        {
            data[i] = bytes[i];
            i = i + 1;
        }
        assert(data@ =~= padded(bytes@));
        Self { data }
    }

    /// The text form: each byte as the character of the same code point.
    pub fn to_string(&self) -> (r: String)
        ensures
            r@ == render(self@),
    {
        let mut s = String::new();
        let mut i: usize = 0;
        while i < 8
            invariant
                i <= 8,
                s@ =~= render(self@).subrange(0, i as int),
            decreases 8 - i,
        {
            s.push(self.data[i] as char);
            i = i + 1;
        }
        s
    }

    /// Whether the text form starts with `input`. Empty input always matches;
    /// input of more than eight bytes never does.
    pub fn starts_with(&self, input: &str) -> (r: bool)
        ensures
            r == text_starts_with(self@, input.spec_bytes()),
    {
        let pre = input.as_bytes();
        if pre.len() == 0 {
            assert(pre@ =~= text_bytes(self@).subrange(0, 0));
            return true;
        }
        if pre.len() > 8 {
            return false;
        }
        let s = self.to_string();
        let text = s.as_str().as_bytes();
        if pre.len() > text.len() {
            return false;
        }
        let mut i: usize = 0;
        while i < pre.len()
            invariant
                i <= pre@.len() <= text@.len(),
                pre@ == input.spec_bytes(),
                text@ == text_bytes(self@),
                forall|j: int| 0 <= j < i ==> pre@[j] == text@[j],
            decreases pre@.len() - i,
        {
            if pre[i] != text[i] {
                assert(pre@[i as int] != text@.subrange(0, pre@.len() as int)[i as int]);
                return false;
            }
            i = i + 1;
        }
        assert(pre@ =~= text@.subrange(0, pre@.len() as int));
        true
    }

    /// Whether the text form ends with `input`. Empty input always matches;
    /// input of more than eight bytes never does.
    pub fn ends_with(&self, input: &str) -> (r: bool)
        ensures
            r == text_ends_with(self@, input.spec_bytes()),
    {
        let suf = input.as_bytes();
        if suf.len() == 0 {
            let ghost t = text_bytes(self@);
            assert(suf@ =~= t.subrange(t.len() as int, t.len() as int));
            return true;
        }
        if suf.len() > 8 {
            return false;
        }
        let s = self.to_string();
        let text = s.as_str().as_bytes();
        if suf.len() > text.len() {
            return false;
        }
        let tl = text.len();
        let off = tl - suf.len();
        let mut i: usize = 0;
        while i < suf.len()
            invariant
                i <= suf@.len(),
                off + suf@.len() == tl,
                tl == text@.len(),
                suf@ == input.spec_bytes(),
                text@ == text_bytes(self@),
                forall|j: int| 0 <= j < i ==> suf@[j] == text@[off + j],
            decreases suf@.len() - i,
        {
            if suf[i] != text[off + i] {
                assert(suf@[i as int] != text@.subrange(off as int, text@.len() as int)[i as int]);
                return false;
            }
            i = i + 1;
        }
        assert(suf@ =~= text@.subrange(off as int, text@.len() as int));
        true
    }
}

// ---------------------------------------------------------------------------
// Laws relating the representations.
// ---------------------------------------------------------------------------

/// Two identifiers with the same eight bytes are the same identifier, however
/// each was built.
pub proof fn lemma_view_determines(a: TinyId, b: TinyId)
    requires
        a@ == b@,
    ensures
        a == b,
{
    assert(a.data =~= b.data);
}

/// Shifting the big-endian bytes of an integer back together gives the
/// integer again.
proof fn lemma_be_u64_of_bytes(n: u64)
    ensures
        (((n >> 56u64) as u8) as u64) << 56u64 | (((n >> 48u64) as u8) as u64) << 48u64 | (((n
            >> 40u64) as u8) as u64) << 40u64 | (((n >> 32u64) as u8) as u64) << 32u64 | (((n
            >> 24u64) as u8) as u64) << 24u64 | (((n >> 16u64) as u8) as u64) << 16u64 | (((n
            >> 8u64) as u8) as u64) << 8u64 | ((n as u8) as u64) == n,
{
    assert((((n >> 56u64) as u8) as u64) << 56u64 | (((n >> 48u64) as u8) as u64) << 48u64 | (((n
        >> 40u64) as u8) as u64) << 40u64 | (((n >> 32u64) as u8) as u64) << 32u64 | (((n
        >> 24u64) as u8) as u64) << 24u64 | (((n >> 16u64) as u8) as u64) << 16u64 | (((n
        >> 8u64) as u8) as u64) << 8u64 | ((n as u8) as u64) == n) by (bit_vector);
}

/// Splitting an integer assembled from eight bytes gives the bytes again.
proof fn lemma_be_bytes_of_u64(b0: u8, b1: u8, b2: u8, b3: u8, b4: u8, b5: u8, b6: u8, b7: u8)
    ensures
        ({
            let n = (b0 as u64) << 56u64 | (b1 as u64) << 48u64 | (b2 as u64) << 40u64 | (
            b3 as u64) << 32u64 | (b4 as u64) << 24u64 | (b5 as u64) << 16u64 | (b6 as u64)
                << 8u64 | (b7 as u64);
            &&& (n >> 56u64) as u8 == b0
            &&& (n >> 48u64) as u8 == b1
            &&& (n >> 40u64) as u8 == b2
            &&& (n >> 32u64) as u8 == b3
            &&& (n >> 24u64) as u8 == b4
            &&& (n >> 16u64) as u8 == b5
            &&& (n >> 8u64) as u8 == b6
            &&& n as u8 == b7
        }),
{
    let n = (b0 as u64) << 56u64 | (b1 as u64) << 48u64 | (b2 as u64) << 40u64 | (b3 as u64)
        << 32u64 | (b4 as u64) << 24u64 | (b5 as u64) << 16u64 | (b6 as u64) << 8u64 | (
    b7 as u64);
    assert((n >> 56u64) as u8 == b0 && (n >> 48u64) as u8 == b1 && (n >> 40u64) as u8 == b2
        && (n >> 32u64) as u8 == b3) by (bit_vector)
        requires
            n == (b0 as u64) << 56u64 | (b1 as u64) << 48u64 | (b2 as u64) << 40u64 | (
            b3 as u64) << 32u64 | (b4 as u64) << 24u64 | (b5 as u64) << 16u64 | (b6 as u64)
                << 8u64 | (b7 as u64),
    ;
    assert((n >> 24u64) as u8 == b4 && (n >> 16u64) as u8 == b5 && (n >> 8u64) as u8 == b6
        && n as u8 == b7) by (bit_vector)
        requires
            n == (b0 as u64) << 56u64 | (b1 as u64) << 48u64 | (b2 as u64) << 40u64 | (
            b3 as u64) << 32u64 | (b4 as u64) << 24u64 | (b5 as u64) << 16u64 | (b6 as u64)
                << 8u64 | (b7 as u64),
    ;
}

/// Reading eight bytes as a big-endian integer and splitting it again gives
/// the same bytes.
pub proof fn lemma_bytes_round_trip(s: Seq<u8>)
    requires
        s.len() == 8,
    ensures
        be_bytes(be_u64(s)) == s,
{
    lemma_be_bytes_of_u64(s[0], s[1], s[2], s[3], s[4], s[5], s[6], s[7]);
    assert(be_bytes(be_u64(s)) =~= s);
}

/// Splitting an integer into big-endian bytes and reading them back gives the
/// same integer.
pub proof fn lemma_u64_round_trip(n: u64)
    ensures
        be_u64(be_bytes(n)) == n,
{
    lemma_be_u64_of_bytes(n);
}

/// A well-formed identifier converted to its integer and back through the
/// checked conversion is the same identifier.
pub proof fn lemma_integer_round_trip(s: Seq<u8>)
    requires
        s.len() == 8,
        all_letters(s),
    ensures
        checked_bytes(be_bytes(be_u64(s))) == Ok::<Seq<u8>, TinyIdError>(s),
{
    lemma_bytes_round_trip(s);
    lemma_well_formed_is_valid(s);
}

/// The text form of a well-formed identifier is its own eight bytes.
pub proof fn lemma_text_of_well_formed(s: Seq<u8>)
    requires
        s.len() == 8,
        all_letters(s),
    ensures
        text_bytes(s) == s,
{
    let chars = render(s);
    assert(is_ascii_chars(chars));
    is_ascii_chars_encode_utf8(chars);
    assert(text_bytes(s) =~= s);
}

/// Eight alphabet bytes, checked, rendered as text and parsed again, give the
/// same identifier as the checked construction.
pub proof fn lemma_text_round_trip(s: Seq<u8>)
    requires
        s.len() == 8,
        all_letters(s),
    ensures
        checked_bytes(s) == Ok::<Seq<u8>, TinyIdError>(s),
        checked_text(text_bytes(s)) == checked_bytes(s),
{
    lemma_well_formed_is_valid(s);
    lemma_text_of_well_formed(s);
}

/// A well-formed identifier is valid, and so is not the null identifier.
pub proof fn lemma_well_formed_is_valid(s: Seq<u8>)
    requires
        s.len() == 8,
        all_letters(s),
    ensures
        valid_bytes(s),
        s != sentinel(),
{
    assert(s[0] != sentinel()[0]);
}

/// The null identifier is null and not valid.
pub proof fn lemma_null_not_valid()
    ensures
        !valid_bytes(sentinel()),
        sentinel().len() == 8,
{
}

/// Text whose byte length is not eight is refused for its length; eight bytes
/// holding `!`, `@`, a space or a zero byte are refused for their characters.
pub proof fn lemma_parse_rejections(b: Seq<u8>, i: int)
    ensures
        b.len() != 8 ==> checked_text(b) == Err::<Seq<u8>, TinyIdError>(
            TinyIdError::InvalidLength,
        ),
        b.len() == 8 && 0 <= i < 8 && (b[i] == 33 || b[i] == 64 || b[i] == 32 || b[i] == 0)
            ==> checked_text(b) == Err::<Seq<u8>, TinyIdError>(TinyIdError::InvalidCharacters),
{
}

/// Empty text starts and ends every text form; text longer than eight bytes
/// starts none.
pub proof fn lemma_affix_bounds(s: Seq<u8>, p: Seq<u8>)
    ensures
        p.len() == 0 ==> text_starts_with(s, p) && text_ends_with(s, p),
        p.len() > 8 ==> !text_starts_with(s, p) && !text_ends_with(s, p),
{
    if p.len() == 0 {
        let t = text_bytes(s);
        assert(p =~= t.subrange(0, 0));
        assert(p =~= t.subrange(t.len() as int, t.len() as int));
    }
}

/// The same eight bytes reached through the bytes, through their big-endian
/// integer, or through text holding them, give equal storage.
pub proof fn lemma_representations_agree(s: Seq<u8>)
    requires
        s.len() == 8,
    ensures
        be_bytes(be_u64(s)) == s,
        padded(s) == s,
{
    lemma_bytes_round_trip(s);
    assert(padded(s) =~= s);
}

} // verus!
