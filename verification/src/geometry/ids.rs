//! Identifiers of shapes, curves and regions.
//!
//! An identifier is a 128-bit ULID: 48 bits of time followed by 80 random
//! bits. The library keeps the number; `from_ulid` and `ulid` convert.
use vstd::prelude::*;
use vstd::arithmetic::power::pow;
use ulid::Ulid;

verus! {

/// `ulid::Ulid`: a ULID, which is its 128-bit number and nothing else.
#[verifier::external_type_specification]
pub struct ExUlid(Ulid);

/// `Ulid::new`: an identifier made from the clock and the thread's random
/// generator. Nothing is claimed of the value.
pub assume_specification[ Ulid::new ]() -> (r: Ulid);

/// `Ulid::to_string`: the 26 characters of the Crockford base 32 encoding,
/// most significant digit first.
pub assume_specification[ Ulid::to_string ](ulid: &Ulid) -> (r: String)
    ensures
        r@ == ulid_text(ulid.0),
;

/// The digits of Crockford's base 32, in order of value.
pub open spec fn crockford_alphabet() -> Seq<char> {
    seq![
        '0', '1', '2', '3', '4', '5', '6', '7', '8', '9', 'A', 'B', 'C', 'D', 'E', 'F', 'G', 'H',
        'J', 'K', 'M', 'N', 'P', 'Q', 'R', 'S', 'T', 'V', 'W', 'X', 'Y', 'Z',
    ]
}

/// The text of an identifier: 26 base 32 digits, the digit of weight
/// `32^(25-i)` at position `i`.
pub open spec fn ulid_text(value: u128) -> Seq<char> {
    Seq::new(26, |i: int| crockford_alphabet()[(value as int / pow(32, (25 - i) as nat)) % 32])
}

/// Identifier of a shape.
#[derive(Clone, Copy, Debug, PartialEq, Eq, Hash, Structural)]
pub struct ShapeId {
    pub value: u128,
}

/// Identifier of a curve.
#[derive(Clone, Copy, Debug, PartialEq, Eq, Hash, Structural)]
pub struct CurveId {
    pub value: u128,
}

/// Identifier of a region.
#[derive(Clone, Copy, Debug, PartialEq, Eq, Hash, Structural)]
pub struct RegionId {
    pub value: u128,
}

impl ShapeId {
    /// A fresh identifier: that of a ULID made from the clock and the
    /// random generator, as `from_ulid` gives it.
    pub fn new() -> (r: ShapeId) {
        ShapeId::from_ulid(Ulid::new())
    }

    /// The identifier of the number of a ULID.
    pub fn from_ulid(ulid: Ulid) -> (r: ShapeId)
        ensures
            r.value == ulid.0,
    {
        ShapeId { value: ulid.0 }
    }

    /// The identifier as a ULID.
    pub fn ulid(&self) -> (r: Ulid)
        ensures
            r.0 == self.value,
    {
        Ulid(self.value)
    }

    /// The identifier as text.
    pub fn to_string(&self) -> (r: String)
        ensures
            r@ == ulid_text(self.value),
    {
        let ulid = Ulid(self.value);
        ulid.to_string()
    }
}

impl Default for ShapeId {
    fn default() -> (r: ShapeId) {
        ShapeId::new()
    }
}

impl CurveId {
    /// A fresh identifier: that of a ULID made from the clock and the
    /// random generator, as `from_ulid` gives it.
    pub fn new() -> (r: CurveId) {
        CurveId::from_ulid(Ulid::new())
    }

    /// The identifier of the number of a ULID.
    pub fn from_ulid(ulid: Ulid) -> (r: CurveId)
        ensures
            r.value == ulid.0,
    {
        CurveId { value: ulid.0 }
    }

    /// The identifier as a ULID.
    pub fn ulid(&self) -> (r: Ulid)
        ensures
            r.0 == self.value,
    {
        Ulid(self.value)
    }

    /// The identifier as text.
    pub fn to_string(&self) -> (r: String)
        ensures
            r@ == ulid_text(self.value),
    {
        let ulid = Ulid(self.value);
        ulid.to_string()
    }
}

impl Default for CurveId {
    fn default() -> (r: CurveId) {
        CurveId::new()
    }
}

impl RegionId {
    /// A fresh identifier: that of a ULID made from the clock and the
    /// random generator, as `from_ulid` gives it.
    pub fn new() -> (r: RegionId) {
        RegionId::from_ulid(Ulid::new())
    }

    /// The identifier of the number of a ULID.
    pub fn from_ulid(ulid: Ulid) -> (r: RegionId)
        ensures
            r.value == ulid.0,
    {
        RegionId { value: ulid.0 }
    }

    /// The identifier as a ULID.
    pub fn ulid(&self) -> (r: Ulid)
        ensures
            r.0 == self.value,
    {
        Ulid(self.value)
    }

    /// The identifier as text.
    pub fn to_string(&self) -> (r: String)
        ensures
            r@ == ulid_text(self.value),
    {
        let ulid = Ulid(self.value);
        ulid.to_string()
    }
}

impl Default for RegionId {
    fn default() -> (r: RegionId) {
        RegionId::new()
    }
}

} // verus!
