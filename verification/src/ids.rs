//! Opaque 128-bit identities and their canonical UUID spellings.

use vstd::prelude::*;

verus! {

/// One lower-case hexadecimal digit for `n` in `0..16`.
pub open spec fn hex_digit(n: int) -> char {
    if n < 10 {
        (n + 48) as char
    } else {
        (n - 10 + 97) as char
    }
}

/// The `width` least significant hexadecimal digits of `v`, most significant first.
pub open spec fn hex_of(v: nat, width: nat) -> Seq<char>
    decreases width,
{
    if width == 0 {
        Seq::empty()
    } else {
        hex_of(v / 16, (width - 1) as nat).push(hex_digit((v % 16) as int))
    }
}

/// Two lower-case hexadecimal digits per byte, in byte order.
pub open spec fn bytes_hex(b: Seq<u8>) -> Seq<char>
    decreases b.len(),
{
    if b.len() == 0 {
        Seq::empty()
    } else {
        bytes_hex(b.drop_last()) + seq![hex_digit(b.last() as int / 16), hex_digit(b.last() as int % 16)]
    }
}

/// The 32-digit simple spelling of a UUID value.
pub open spec fn uuid_simple_text(v: u128) -> Seq<char> {
    hex_of(v as nat, 32)
}

/// The 8-4-4-4-12 hyphenated spelling of a UUID value.
pub open spec fn uuid_hyphenated_text(v: u128) -> Seq<char> {
    let h = uuid_simple_text(v);
    h.subrange(0, 8) + seq!['-'] + h.subrange(8, 12) + seq!['-'] + h.subrange(12, 16) + seq!['-']
        + h.subrange(16, 20) + seq!['-'] + h.subrange(20, 32)
}

/// The value of one hexadecimal digit, either case.
pub open spec fn hex_nibble(c: char) -> Option<int> {
    if '0' <= c && c <= '9' {
        Some(c as int - '0' as int)
    } else if 'a' <= c && c <= 'f' {
        Some(c as int - 'a' as int + 10)
    } else if 'A' <= c && c <= 'F' {
        Some(c as int - 'A' as int + 10)
    } else {
        None
    }
}

/// The big-endian value of a run of hexadecimal digits.
pub open spec fn hex_number(s: Seq<char>) -> Option<nat>
    decreases s.len(),
{
    if s.len() == 0 {
        Some(0)
    } else {
        match (hex_number(s.drop_last()), hex_nibble(s.last())) {
            (Some(v), Some(d)) => Some((v * 16 + d) as nat),
            _ => None,
        }
    }
}

/// The value of exactly 32 hexadecimal digits.
pub open spec fn uuid_digits_value(digits: Seq<char>) -> Option<u128> {
    if digits.len() == 32 {
        match hex_number(digits) {
            Some(v) => Some(v as u128),
            None => None,
        }
    } else {
        None
    }
}

/// The value of the 8-4-4-4-12 hyphenated spelling.
pub open spec fn hyphenated_uuid_value(s: Seq<char>) -> Option<u128> {
    if s.len() == 36 && s[8] == '-' && s[13] == '-' && s[18] == '-' && s[23] == '-' {
        uuid_digits_value(
            s.subrange(0, 8) + s.subrange(9, 13) + s.subrange(14, 18) + s.subrange(19, 23)
                + s.subrange(24, 36),
        )
    } else {
        None
    }
}

/// An ASCII letter in lower case; any other character as it is.
pub open spec fn ascii_lower(c: char) -> char {
    if 'A' <= c && c <= 'Z' {
        ((c as int) + 32) as char
    } else {
        c
    }
}

/// The UUID a text spells: 32 hexadecimal digits, the hyphenated form, the
/// hyphenated form in braces, or the hyphenated form after `urn:uuid:` in
/// any letter case; digits in either case.
pub open spec fn uuid_text_value(text: Seq<char>) -> Option<u128> {
    if text.len() == 32 {
        uuid_digits_value(text)
    } else if text.len() == 36 {
        hyphenated_uuid_value(text)
    } else if text.len() == 38 && text[0] == '{' && text[37] == '}' {
        hyphenated_uuid_value(text.subrange(1, 37))
    } else if text.len() == 45 && text.subrange(0, 9).map_values(|c: char| ascii_lower(c))
        == "urn:uuid:"@ {
        hyphenated_uuid_value(text.subrange(9, 45))
    } else {
        None
    }
}

/// A lower-case hexadecimal digit character.
pub open spec fn is_hex_char(c: char) -> bool {
    ('0' <= c && c <= '9') || ('a' <= c && c <= 'f')
}

/// `hex_of` has exactly `width` characters, each a hexadecimal digit.
pub proof fn lemma_hex_of_shape(v: nat, width: nat)
    ensures
        hex_of(v, width).len() == width,
        forall|i: int| 0 <= i < width ==> is_hex_char(#[trigger] hex_of(v, width)[i]),
    decreases width,
{
    if width > 0 {
        lemma_hex_of_shape(v / 16, (width - 1) as nat);
        let d = (v % 16) as int;
        assert(0 <= d < 16);
        assert(is_hex_char(hex_digit(d)));
        let h = hex_of(v, width);
        assert forall|i: int| 0 <= i < width implies is_hex_char(#[trigger] h[i]) by {
            if i < width - 1 {
                assert(h[i] == hex_of(v / 16, (width - 1) as nat)[i]);
            }
        }
    }
}

/// `uuid::Uuid::from_u128(v).simple().to_string()`: the crate renders the
/// big-endian bytes of `v` as 32 lower-case hexadecimal digits.
#[verifier::external_body]
pub fn uuid_simple(v: u128) -> (r: String)
    ensures
        r@ == uuid_simple_text(v),
{
    uuid::Uuid::from_u128(v).simple().to_string()
}

/// `uuid::Uuid::from_u128(v).hyphenated().to_string()`: the simple spelling
/// split 8-4-4-4-12 by hyphens, lower case.
#[verifier::external_body]
pub fn uuid_hyphenated(v: u128) -> (r: String)
    ensures
        r@ == uuid_hyphenated_text(v),
{
    uuid::Uuid::from_u128(v).hyphenated().to_string()
}

/// `uuid::Uuid::parse_str`: the value of a text in one of the spellings it
/// accepts (`uuid_text_value`), or `None`.
#[verifier::external_body]
pub fn uuid_parse(text: &str) -> (r: Option<u128>)
    ensures
        r == uuid_text_value(text@),
{
    uuid::Uuid::parse_str(text).ok().map(|uuid| uuid.as_u128())
}

/// A version-4 UUID value of the RFC 4122 variant: its version nibble is 4
/// and its two variant bits are `10`; its other bits are random.
pub open spec fn is_random_uuid(value: u128) -> bool {
    value & 0xF000_C000_0000_0000_0000u128 == 0x4000_8000_0000_0000_0000u128
}

/// `uuid::Uuid::new_v4`: a random value whose version and variant bits it
/// sets (version 4, RFC 4122 variant); nothing is promised of the others.
#[verifier::external_body]
pub fn uuid_random() -> (r: u128)
    ensures
        is_random_uuid(r),
{
    uuid::Uuid::new_v4().as_u128()
}

/// Identity of this host's registry.
#[derive(Clone, Copy, Debug, PartialEq, Eq, Structural, Hash, PartialOrd, Ord)]
pub struct HostId {
    pub value: u128,
}

/// Identity of one Project.
#[derive(Clone, Copy, Debug, PartialEq, Eq, Structural, Hash, PartialOrd, Ord)]
pub struct ProjectId {
    pub value: u128,
}

/// Identity of one Project location (checkout).
#[derive(Clone, Copy, Debug, PartialEq, Eq, Structural, Hash, PartialOrd, Ord)]
pub struct LocationId {
    pub value: u128,
}

/// Identity of one Workstream.
#[derive(Clone, Copy, Debug, PartialEq, Eq, Structural, Hash, PartialOrd, Ord)]
pub struct WorkstreamId {
    pub value: u128,
}

/// Identity of one private Runtime.
#[derive(Clone, Copy, Debug, PartialEq, Eq, Structural, Hash, PartialOrd, Ord)]
pub struct RuntimeId {
    pub value: u128,
}

/// Identity of one compound operation.
#[derive(Clone, Copy, Debug, PartialEq, Eq, Structural, Hash, PartialOrd, Ord)]
pub struct OperationId {
    pub value: u128,
}

impl HostId {
    /// The identity with the given value.
    pub fn from_u128(value: u128) -> (r: HostId)
        ensures
            r.value == value,
    {
        HostId { value }
    }

    /// The identity a UUID text spells, in any form the UUID parser accepts.
    pub fn parse(text: &str) -> (r: Option<HostId>)
        ensures
            r == (match uuid_text_value(text@) {
                Some(value) => Some(HostId { value }),
                None => None,
            }),
    {
        match uuid_parse(text) {
            Some(value) => Some(HostId { value }),
            None => None,
        }
    }

    /// The 32-digit simple spelling.
    pub fn simple_text(&self) -> (r: String)
        ensures
            r@ == uuid_simple_text(self.value),
    {
        uuid_simple(self.value)
    }
}

impl ProjectId {
    /// The identity with the given value.
    pub fn from_u128(value: u128) -> (r: ProjectId)
        ensures
            r.value == value,
    {
        ProjectId { value }
    }
}

impl LocationId {
    /// The identity with the given value.
    pub fn from_u128(value: u128) -> (r: LocationId)
        ensures
            r.value == value,
    {
        LocationId { value }
    }
}

impl WorkstreamId {
    /// A fresh random identity: a version-4 UUID.
    pub fn new() -> (r: WorkstreamId)
        ensures
            is_random_uuid(r.value),
    {
        WorkstreamId { value: uuid_random() }
    }

    /// The identity with the given value.
    pub fn from_u128(value: u128) -> (r: WorkstreamId)
        ensures
            r.value == value,
    {
        WorkstreamId { value }
    }

    /// The hyphenated spelling.
    pub fn text(&self) -> (r: String)
        ensures
            r@ == uuid_hyphenated_text(self.value),
    {
        uuid_hyphenated(self.value)
    }
}

impl RuntimeId {
    /// A fresh random identity: a version-4 UUID.
    pub fn new() -> (r: RuntimeId)
        ensures
            is_random_uuid(r.value),
    {
        RuntimeId { value: uuid_random() }
    }

    /// The identity with the given value.
    pub fn from_u128(value: u128) -> (r: RuntimeId)
        ensures
            r.value == value,
    {
        RuntimeId { value }
    }

    /// The hyphenated spelling.
    pub fn text(&self) -> (r: String)
        ensures
            r@ == uuid_hyphenated_text(self.value),
    {
        uuid_hyphenated(self.value)
    }
}

impl OperationId {
    /// The identity with the given value.
    pub fn from_u128(value: u128) -> (r: OperationId)
        ensures
            r.value == value,
    {
        OperationId { value }
    }
}

/// The hyphenated spelling has 36 characters, each a hexadecimal digit or a
/// hyphen.
pub proof fn lemma_uuid_hyphenated_shape(v: u128)
    ensures
        uuid_hyphenated_text(v).len() == 36,
        forall|i: int|
            0 <= i < 36 ==> is_hex_char(#[trigger] uuid_hyphenated_text(v)[i])
                || uuid_hyphenated_text(v)[i] == '-',
{
    let h = uuid_simple_text(v);
    lemma_hex_of_shape(v as nat, 32);
    let t = uuid_hyphenated_text(v);
    assert forall|i: int| 0 <= i < 36 implies is_hex_char(#[trigger] t[i]) || t[i] == '-' by {
        if i < 8 {
            assert(t[i] == h[i]);
        } else if i == 8 || i == 13 || i == 18 || i == 23 {
            assert(t[i] == '-');
        } else if i < 13 {
            assert(t[i] == h[i - 1]);
        } else if i < 18 {
            assert(t[i] == h[i - 2]);
        } else if i < 23 {
            assert(t[i] == h[i - 3]);
        } else {
            assert(t[i] == h[i - 4]);
        }
    }
}

} // verus!
