//! Opaque identifiers of rooms, participants and engine objects.
//!
//! Every identifier is a plain integer: equality, hashing and ordering go by
//! the raw value.
use vstd::prelude::*;

verus! {

/// Identifier of a room, either supplied by a client or freshly generated.
#[derive(Debug, Copy, Clone, PartialEq, Eq, Structural, Hash, PartialOrd, Ord)]
pub struct RoomId(pub u128);

/// Identifier of a participant, generated once per connection.
#[derive(Debug, Copy, Clone, PartialEq, Eq, Structural, Hash, PartialOrd, Ord)]
pub struct ParticipantId(pub u128);

/// Identifier that the media engine gave to a producer.
#[derive(Debug, Copy, Clone, PartialEq, Eq, Structural, Hash, PartialOrd, Ord)]
pub struct ProducerId(pub u128);

/// Identifier that the media engine gave to a consumer.
#[derive(Debug, Copy, Clone, PartialEq, Eq, Structural, Hash, PartialOrd, Ord)]
pub struct ConsumerId(pub u128);

/// Identifier that the media engine gave to a router.
#[derive(Debug, Copy, Clone, PartialEq, Eq, Structural, Hash, PartialOrd, Ord)]
pub struct RouterId(pub u128);

/// Identifier that the media engine gave to a transport.
#[derive(Debug, Copy, Clone, PartialEq, Eq, Structural, Hash, PartialOrd, Ord)]
pub struct TransportId(pub u128);

/// Handle of one event subscription inside a room.
#[derive(Debug, Copy, Clone, PartialEq, Eq, Structural, Hash, PartialOrd, Ord)]
pub struct HandlerId(pub u64);

/// Whether `raw` carries the marks of a randomly generated identifier: its
/// thirteenth hexadecimal digit, which tells the version, is 4, and the two
/// highest bits of its seventeenth digit, which tell the variant, are one
/// and zero. The other 122 bits are free.
pub open spec fn is_version_four(raw: u128) -> bool {
    &&& (raw / 0x1000_0000_0000_0000_0000) % 16 == 4
    &&& (raw / 0x4000_0000_0000_0000) % 4 == 2
}

/// Draws an identifier from `uuid::Uuid::new_v4` and hands its 128 bits
/// back as the integer that `Uuid::as_u128` makes of them. The bits are
/// random but for the marks of version and variant, which `new_v4` sets in
/// every identifier it makes; nothing else is claimed of the value.
#[verifier::external_body]
fn fresh_uuid() -> (raw: u128)
    ensures
        is_version_four(raw),
{
    uuid::Uuid::new_v4().as_u128()
}

/// The character of the hexadecimal digit `d`, in lower case.
pub open spec fn hex_digit(d: nat) -> char {
    if d == 0 {
        '0'
    } else if d == 1 {
        '1'
    } else if d == 2 {
        '2'
    } else if d == 3 {
        '3'
    } else if d == 4 {
        '4'
    } else if d == 5 {
        '5'
    } else if d == 6 {
        '6'
    } else if d == 7 {
        '7'
    } else if d == 8 {
        '8'
    } else if d == 9 {
        '9'
    } else if d == 10 {
        'a'
    } else if d == 11 {
        'b'
    } else if d == 12 {
        'c'
    } else if d == 13 {
        'd'
    } else if d == 14 {
        'e'
    } else {
        'f'
    }
}

/// The `count` lowest hexadecimal digits of `n`, the highest of them first.
pub open spec fn hex_digits(n: nat, count: nat) -> Seq<char>
    decreases count,
{
    if count == 0 {
        Seq::empty()
    } else {
        hex_digits(n / 16, (count - 1) as nat).push(hex_digit(n % 16))
    }
}

/// An identifier as text: its 32 hexadecimal digits in lower case, the
/// highest first, in groups of 8, 4, 4, 4 and 12 with a hyphen between
/// them.
pub open spec fn hyphenated(raw: u128) -> Seq<char> {
    let digits = hex_digits(raw as nat, 32);
    digits.subrange(0, 8) + seq!['-'] + digits.subrange(8, 12) + seq!['-'] + digits.subrange(
        12,
        16,
    ) + seq!['-'] + digits.subrange(16, 20) + seq!['-'] + digits.subrange(20, 32)
}

/// Writes an identifier as `uuid::Uuid` displays the identifier made from
/// the same 128 bits by `Uuid::from_u128`: hyphenated, in lower case, the
/// highest digit first.
#[verifier::external_body]
fn uuid_text(raw: u128) -> (text: String)
    ensures
        text@ == hyphenated(raw),
{
    uuid::Uuid::from_u128(raw).to_string()
}

impl RoomId {
    /// A freshly generated room identifier: random, and marked as such.
    pub fn new() -> (id: RoomId)
        ensures
            is_version_four(id.0),
    {
        RoomId(fresh_uuid())
    }

    /// The identifier as text.
    pub fn to_string(&self) -> (text: String)
        ensures
            text@ == hyphenated(self.0),
    {
        uuid_text(self.0)
    }
}

impl ParticipantId {
    /// A freshly generated participant identifier: random, and marked as
    /// such.
    pub fn new() -> (id: ParticipantId)
        ensures
            is_version_four(id.0),
    {
        ParticipantId(fresh_uuid())
    }

    /// The identifier as text.
    pub fn to_string(&self) -> (text: String)
        ensures
            text@ == hyphenated(self.0),
    {
        uuid_text(self.0)
    }
}

} // verus!
