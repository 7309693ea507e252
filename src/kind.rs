//! The twelve numeric type ids of NBT tags, as the enum [`Kind`], and the
//! checked conversion from a raw byte into it.

use vstd::prelude::*;
use vstd::std_specs::cmp::PartialOrdSpec;

verus! {

/// The smallest valid tag id.
pub const MIN_ID: u8 = 1;

/// The largest valid tag id.
pub const MAX_ID: u8 = 12;

/// Whether `b` is the id of a tag kind, i.e. lies in `1..=12`.
pub open spec fn is_kind_id(b: u8) -> bool {
    MIN_ID <= b && b <= MAX_ID
}

/// The twelve numeric type ids of NBT tags.
///
/// The end-of-compound marker (id 0) is not a kind, since it carries no
/// value: it is represented as `None` of an `Option<Kind>`.
///
/// The ids are fixed by the format and never renumbered: a new kind could
/// only take a fresh id above 12.
///
/// The variants are declared in the order of their ids, so the derived `Ord`
/// orders kinds by id, as does the `PartialOrd` below.
#[derive(Clone, Copy, Debug, PartialEq, Eq, Structural, Ord, Hash)]
pub enum Kind {
    /// Id 1: a signed 8-bit integer, from -128 to 127 (inclusive).
    ///
    /// NBT has no boolean type; the byte values 0 and 1 can stand for
    /// `false` and `true`.
    Byte,
    /// Id 2: a signed 16-bit integer, from -32,768 to 32,767 (inclusive).
    Short,
    /// Id 3: a signed 32-bit integer, from -2,147,483,648 to 2,147,483,647
    /// (inclusive).
    Int,
    /// Id 4: a signed 64-bit integer, from -9,223,372,036,854,775,808 to
    /// 9,223,372,036,854,775,807 (inclusive).
    Long,
    /// Id 5: a 32-bit, single-precision IEEE-754 floating-point number.
    Float,
    /// Id 6: a 64-bit, double-precision IEEE-754 floating-point number.
    Double,
    /// Id 7: an ordered list of signed 8-bit integers.
    ///
    /// The payload is a signed 32-bit integer `S`, then `S` signed 8-bit
    /// integers.
    ByteArray,
    /// Id 8: a UTF-8 string, which has a size rather than being
    /// null-terminated.
    ///
    /// The payload is an unsigned 16-bit integer `L`, then `L` bytes of UTF-8
    /// text.
    String,
    /// Id 9: an ordered list of tags of the same kind.
    ///
    /// The payload is one byte holding the id of the elements' kind, then a
    /// signed 32-bit integer `S`, then `S` payloads of that kind.
    List,
    /// Id 10: an unordered list of named tags.
    ///
    /// The payload is a sequence of fully formed tags, then the end marker
    /// (id 0). Each tag is its id, then an unsigned 16-bit integer `L`, then
    /// its name as `L` bytes of UTF-8 text, then the payload of its kind. No
    /// two tags of one compound may share a name.
    Compound,
    /// Id 11: an ordered list of signed 32-bit integers.
    ///
    /// The payload is a signed 32-bit integer `S`, then `S` signed 32-bit
    /// integers.
    IntArray,
    /// Id 12: an ordered list of signed 64-bit integers.
    ///
    /// The payload is a signed 32-bit integer `S`, then `S` signed 64-bit
    /// integers.
    LongArray,
}

/// The kind whose id is `b`, or `None` where `b` is no kind's id.
pub open spec fn kind_of(b: u8) -> Option<Kind> {
    match b {
        1 => Some(Kind::Byte),
        2 => Some(Kind::Short),
        3 => Some(Kind::Int),
        4 => Some(Kind::Long),
        5 => Some(Kind::Float),
        6 => Some(Kind::Double),
        7 => Some(Kind::ByteArray),
        8 => Some(Kind::String),
        9 => Some(Kind::List),
        10 => Some(Kind::Compound),
        11 => Some(Kind::IntArray),
        12 => Some(Kind::LongArray),
        _ => None,
    }
}

impl Kind {
    /// The id byte of this kind.
    pub open spec fn id(self) -> u8 {
        match self {
            Kind::Byte => 1,
            Kind::Short => 2,
            Kind::Int => 3,
            Kind::Long => 4,
            Kind::Float => 5,
            Kind::Double => 6,
            Kind::ByteArray => 7,
            Kind::String => 8,
            Kind::List => 9,
            Kind::Compound => 10,
            Kind::IntArray => 11,
            Kind::LongArray => 12,
        }
    }

    /// Converts `kind` into a `Kind`, returning an error if it is not
    /// between 1 and 12 (inclusive).
    ///
    /// `TryFrom<u8>` does the same.
    pub fn new(kind: u8) -> (r: Result<Self, NbtKindError>)
        ensures
            r is Ok <==> is_kind_id(kind),
            r matches Ok(k) ==> kind_of(kind) == Some(k),
    {
        if MIN_ID <= kind && kind <= MAX_ID {
            Ok(Kind::new_unchecked(kind))
        } else {
            Err(NbtKindError(()))
        }
    }

    /// Converts `kind` into a `Kind`, which the caller guarantees to be
    /// between 1 and 12 (inclusive).
    ///
    /// For call sites that have already matched the byte against the valid
    /// ids. Callers outside verified code must check the range themselves.
    pub fn new_unchecked(kind: u8) -> (r: Self)
        requires
            is_kind_id(kind),
        ensures
            kind_of(kind) == Some(r),
    {
        match kind {
            1 => Kind::Byte,
            2 => Kind::Short,
            3 => Kind::Int,
            4 => Kind::Long,
            5 => Kind::Float,
            6 => Kind::Double,
            7 => Kind::ByteArray,
            8 => Kind::String,
            9 => Kind::List,
            10 => Kind::Compound,
            11 => Kind::IntArray,
            _ => Kind::LongArray,
        }
    }

    /// The id byte of this kind, as written in front of its payload.
    pub fn to_u8(self) -> (r: u8)
        ensures
            r == self.id(),
    {
        match self {
            Kind::Byte => 1,
            Kind::Short => 2,
            Kind::Int => 3,
            Kind::Long => 4,
            Kind::Float => 5,
            Kind::Double => 6,
            Kind::ByteArray => 7,
            Kind::String => 8,
            Kind::List => 9,
            Kind::Compound => 10,
            Kind::IntArray => 11,
            Kind::LongArray => 12,
        }
    }
}

impl TryFrom<u8> for Kind {
    type Error = NbtKindError;

    fn try_from(value: u8) -> (r: Result<Self, Self::Error>) {
        let r = Kind::new(value);
        proof {
            if r is Err {
                assert(r->Err_0 == NbtKindError::out_of_range());
            }
        }
        r
    }
}

impl vstd::std_specs::convert::TryFromSpecImpl<u8> for Kind {
    open spec fn obeys_try_from_spec() -> bool {
        true
    }

    open spec fn try_from_spec(v: u8) -> Result<Self, NbtKindError> {
        match kind_of(v) {
            Some(k) => Ok(k),
            None => Err(NbtKindError::out_of_range()),
        }
    }
}

impl From<Kind> for u8 {
    fn from(kind: Kind) -> (r: u8) {
        kind.to_u8()
    }
}

impl vstd::std_specs::convert::FromSpecImpl<Kind> for u8 {
    open spec fn obeys_from_spec() -> bool {
        true
    }

    open spec fn from_spec(kind: Kind) -> u8 {
        kind.id()
    }
}

impl PartialOrd for Kind {
    fn partial_cmp(&self, other: &Kind) -> (r: Option<core::cmp::Ordering>) {
        self.to_u8().partial_cmp(&other.to_u8())
    }
}

impl vstd::std_specs::cmp::PartialOrdSpecImpl for Kind {
    open spec fn obeys_partial_cmp_spec() -> bool {
        true
    }

    open spec fn partial_cmp_spec(&self, other: &Kind) -> Option<core::cmp::Ordering> {
        if self.id() < other.id() {
            Some(core::cmp::Ordering::Less)
        } else if self.id() == other.id() {
            Some(core::cmp::Ordering::Equal)
        } else {
            Some(core::cmp::Ordering::Greater)
        }
    }
}

/// Every kind's id is a valid id, and converting it back gives that kind.
pub proof fn lemma_id_round_trip(k: Kind)
    ensures
        is_kind_id(k.id()),
        kind_of(k.id()) == Some(k),
{
}

/// Every valid id converts to a kind, whose id is the one converted.
pub proof fn lemma_kind_of_id(b: u8)
    requires
        is_kind_id(b),
    ensures
        kind_of(b) is Some,
        kind_of(b)->0.id() == b,
{
}

/// Converting a byte that is no valid id gives no kind.
pub proof fn lemma_kind_of_invalid(b: u8)
    requires
        !is_kind_id(b),
    ensures
        kind_of(b) is None,
{
}

/// Two kinds are equal exactly when their ids are.
pub proof fn lemma_id_injective(k1: Kind, k2: Kind)
    ensures
        k1 == k2 <==> k1.id() == k2.id(),
{
}

/// Kinds are ordered as their ids: of two valid ids `b1 < b2`, the kind of
/// `b1` compares less than the kind of `b2`.
pub proof fn lemma_order_follows_id(b1: u8, b2: u8)
    requires
        is_kind_id(b1),
        is_kind_id(b2),
        b1 < b2,
    ensures
        kind_of(b1)->0.partial_cmp_spec(&kind_of(b2)->0) == Some(core::cmp::Ordering::Less),
        kind_of(b2)->0.partial_cmp_spec(&kind_of(b1)->0) == Some(core::cmp::Ordering::Greater),
{
}

/// On a valid id, what `Kind::new` returns in `Ok` and what
/// `Kind::new_unchecked` returns are the same kind: same value, same id, and
/// equal under the ordering.
pub proof fn lemma_unchecked_agrees(b: u8, checked: Kind, unchecked: Kind)
    requires
        is_kind_id(b),
        kind_of(b) == Some(checked),
        kind_of(b) == Some(unchecked),
    ensures
        checked == unchecked,
        checked.id() == b,
        unchecked.id() == b,
        checked.partial_cmp_spec(&unchecked) == Some(core::cmp::Ordering::Equal),
{
}

/// The error returned when a `u8` is not the id of any `Kind`.
///
/// It keeps nothing of the rejected byte; callers that need it capture it
/// before the conversion.
#[derive(Debug)]
pub struct NbtKindError(pub(crate) ());

/// The error holds nothing: any two of its values are equal, so none can
/// tell which byte was rejected.
pub proof fn lemma_error_holds_nothing(e1: NbtKindError, e2: NbtKindError)
    ensures
        e1 == e2,
{
}

impl NbtKindError {
    /// The one value of this type.
    pub closed spec fn out_of_range() -> NbtKindError {
        NbtKindError(())
    }

    /// The human-readable description of this error.
    pub fn message(&self) -> (r: std::string::String)
        ensures
            r@ == "cannot convert from `u8` into `Kind`, value out of range"@,
    {
        std::string::String::from_str("cannot convert from `u8` into `Kind`, value out of range")
    }
}

} // verus!
