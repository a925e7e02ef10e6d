//! Variable descriptors: what a position of a decision vector may hold.

use crate::errors::ConfigError;
use crate::random::integer_within;
use rand::rngs::StdRng;
use vstd::prelude::*;

verus! {

/// Storage widths a real variable may be declared with.
pub enum RealDataType {
    F64,
    F32,
    F128,
    F256,
    F16,
}

/// Storage widths an integer variable may be declared with.
pub enum IntegerDataType {
    I64,
    I32,
    I16,
    I8,
    U64,
    U32,
    U16,
    U8,
}

/// Storage widths a binary variable may be declared with.
pub enum BinaryDataType {
    Bool,
    U8,
    U4,
    U2,
    U16,
    U32,
    U64,
    U128,
    U256,
}

/// The value `v` brought into `[lower, upper]`: `lower` when `v` lies below
/// it, else `upper` when `v` lies above it, else `v`.
pub open spec fn clip_spec(v: int, lower: int, upper: int) -> int {
    if v < lower {
        lower
    } else if v > upper {
        upper
    } else {
        v
    }
}

/// Brings `v` into `[lower, upper]`.
pub fn clip(v: i64, lower: i64, upper: i64) -> (r: i64)
    ensures
        r == clip_spec(v as int, lower as int, upper as int),
{
    if v < lower {
        lower
    } else if v > upper {
        upper
    } else {
        v
    }
}

/// A clipped value lies within the bounds whenever the bounds are ordered,
/// and a value already within them is left as it is.
pub proof fn lemma_clip_within(v: int, lower: int, upper: int)
    requires
        lower <= upper,
    ensures
        lower <= clip_spec(v, lower, upper) <= upper,
        lower <= v <= upper ==> clip_spec(v, lower, upper) == v,
{
}

/// A variable that samples its own values from a random source.
pub trait SolutionType {
    /// The least value the variable may take.
    spec fn least(&self) -> int;

    /// The bound that every sampled value stays strictly below.
    spec fn limit(&self) -> int;

    /// Draws a value in `[least, limit)`; fails exactly when that range is
    /// empty.
    fn generate_value(&self, rng: &mut StdRng) -> (r: Result<i64, ConfigError>)
        ensures
            self.least() < self.limit() ==> r is Ok && self.least() <= r->Ok_0 < self.limit(),
            !(self.least() < self.limit()) ==> r == Err::<i64, ConfigError>(
                ConfigError::InvalidBounds,
            ),
    ;
}

/// A binary variable: 0 or 1.
#[derive(Debug)]
pub struct BitBinary {}

impl BitBinary {
    pub fn new() -> (r: Self) {
        Self {  }
    }

    /// Draws 0 or 1.
    pub fn generate_value(&self, rng: &mut StdRng) -> (r: Result<i64, ConfigError>)
        ensures
            r == Ok::<i64, ConfigError>(0) || r == Ok::<i64, ConfigError>(1),
    {
        Ok(integer_within(rng, 0, 1))
    }
}

impl SolutionType for BitBinary {
    open spec fn least(&self) -> int {
        0
    }

    open spec fn limit(&self) -> int {
        2
    }

    fn generate_value(&self, rng: &mut StdRng) -> (r: Result<i64, ConfigError>) {
        BitBinary::generate_value(self, rng)
    }
}

/// An integer variable. A missing bound stands for the least or the
/// greatest `i64`. A descriptor is valid when its lower bound lies strictly
/// below its upper bound; equal bounds are rejected, so that the half-open
/// range that values are drawn from is never empty.
#[derive(Debug)]
pub struct Integer {
    pub lower_bound: Option<i64>,
    pub upper_bound: Option<i64>,
}

impl Integer {
    /// The lower bound in effect.
    pub open spec fn lower(&self) -> int {
        match self.lower_bound {
            Some(l) => l as int,
            None => i64::MIN as int,
        }
    }

    /// The upper bound in effect.
    pub open spec fn upper(&self) -> int {
        match self.upper_bound {
            Some(u) => u as int,
            None => i64::MAX as int,
        }
    }

    /// The lower bound lies strictly below the upper bound.
    pub open spec fn valid(&self) -> bool {
        self.lower() < self.upper()
    }

    /// A descriptor with the given bounds; fails exactly when the lower bound
    /// in effect is not strictly below the upper one.
    pub fn new(lower_bound: Option<i64>, upper_bound: Option<i64>) -> (r: Result<
        Self,
        ConfigError,
    >)
        ensures
            (Integer { lower_bound, upper_bound }).valid() ==> r is Ok && r->Ok_0.lower_bound
                == lower_bound && r->Ok_0.upper_bound == upper_bound,
            !(Integer { lower_bound, upper_bound }).valid() ==> r is Err && r->Err_0
                == ConfigError::InvalidBounds,
    {
        let candidate = Integer { lower_bound, upper_bound };
        if candidate.lower_value() < candidate.upper_value() {
            Ok(candidate)
        } else {
            Err(ConfigError::InvalidBounds)
        }
    }

    /// The lower bound in effect.
    pub fn lower_value(&self) -> (r: i64)
        ensures
            r == self.lower(),
    {
        match self.lower_bound {
            Some(l) => l,
            None => i64::MIN,
        }
    }

    /// The upper bound in effect.
    pub fn upper_value(&self) -> (r: i64)
        ensures
            r == self.upper(),
    {
        match self.upper_bound {
            Some(u) => u,
            None => i64::MAX,
        }
    }

    /// Draws an integer in `[lower, upper)`; fails exactly when the
    /// descriptor is not valid.
    pub fn generate_value(&self, rng: &mut StdRng) -> (r: Result<i64, ConfigError>)
        ensures
            self.valid() ==> r is Ok && self.lower() <= r->Ok_0 < self.upper(),
            !self.valid() ==> r is Err && r->Err_0 == ConfigError::InvalidBounds,
    {
        let lower: i64 = self.lower_value();
        let upper: i64 = self.upper_value();
        if lower < upper {
            Ok(integer_within(rng, lower, upper - 1))
        } else {
            Err(ConfigError::InvalidBounds)
        }
    }
}

impl SolutionType for Integer {
    open spec fn least(&self) -> int {
        self.lower()
    }

    open spec fn limit(&self) -> int {
        self.upper()
    }

    fn generate_value(&self, rng: &mut StdRng) -> (r: Result<i64, ConfigError>) {
        Integer::generate_value(self, rng)
    }
}

/// A real variable. Its bounds are ordinals; a missing bound stands for the
/// least or the greatest `i64`. Validity is as for [`Integer`]. A real
/// variable cannot draw its own values: the caller draws, the descriptor
/// brings the draw into range.
#[derive(Debug)]
pub struct Real {
    pub lower_bound: Option<i64>,
    pub upper_bound: Option<i64>,
}

impl Real {
    /// The lower bound in effect.
    pub open spec fn lower(&self) -> int {
        match self.lower_bound {
            Some(l) => l as int,
            None => i64::MIN as int,
        }
    }

    /// The upper bound in effect.
    pub open spec fn upper(&self) -> int {
        match self.upper_bound {
            Some(u) => u as int,
            None => i64::MAX as int,
        }
    }

    /// The lower bound lies strictly below the upper bound.
    pub open spec fn valid(&self) -> bool {
        self.lower() < self.upper()
    }

    /// A descriptor with the given bounds; fails exactly when the lower bound
    /// in effect is not strictly below the upper one.
    pub fn new(lower_bound: Option<i64>, upper_bound: Option<i64>) -> (r: Result<
        Self,
        ConfigError,
    >)
        ensures
            (Real { lower_bound, upper_bound }).valid() ==> r is Ok && r->Ok_0.lower_bound
                == lower_bound && r->Ok_0.upper_bound == upper_bound,
            !(Real { lower_bound, upper_bound }).valid() ==> r is Err && r->Err_0
                == ConfigError::InvalidBounds,
    {
        let candidate = Real { lower_bound, upper_bound };
        if candidate.lower_value() < candidate.upper_value() {
            Ok(candidate)
        } else {
            Err(ConfigError::InvalidBounds)
        }
    }

    /// The lower bound in effect.
    pub fn lower_value(&self) -> (r: i64)
        ensures
            r == self.lower(),
    {
        match self.lower_bound {
            Some(l) => l,
            None => i64::MIN,
        }
    }

    /// The upper bound in effect.
    pub fn upper_value(&self) -> (r: i64)
        ensures
            r == self.upper(),
    {
        match self.upper_bound {
            Some(u) => u,
            None => i64::MAX,
        }
    }

    /// The caller's `draw` brought into `[lower, upper)`, which among
    /// ordinals is `[lower, upper - 1]`; fails exactly when the descriptor is
    /// not valid.
    pub fn generate_value(&self, draw: i64) -> (r: Result<i64, ConfigError>)
        ensures
            self.valid() ==> r is Ok && r->Ok_0 == clip_spec(
                draw as int,
                self.lower(),
                self.upper() - 1,
            ),
            !self.valid() ==> r is Err && r->Err_0 == ConfigError::InvalidBounds,
    {
        let lower: i64 = self.lower_value();
        let upper: i64 = self.upper_value();
        if lower < upper {
            Ok(clip(draw, lower, upper - 1))
        } else {
            Err(ConfigError::InvalidBounds)
        }
    }
}

/// The descriptor of one position of a decision vector.
#[derive(Debug)]
pub enum SolutionDataTypes {
    Real(Real),
    Integer(Integer),
    BitBinary(BitBinary),
}

impl SolutionDataTypes {
    /// The least value the position may hold.
    pub open spec fn lower(&self) -> int {
        match self {
            SolutionDataTypes::Real(descriptor) => descriptor.lower(),
            SolutionDataTypes::Integer(descriptor) => descriptor.lower(),
            SolutionDataTypes::BitBinary(_) => 0,
        }
    }

    /// The greatest value the position may hold.
    pub open spec fn upper(&self) -> int {
        match self {
            SolutionDataTypes::Real(descriptor) => descriptor.upper(),
            SolutionDataTypes::Integer(descriptor) => descriptor.upper(),
            SolutionDataTypes::BitBinary(_) => 1,
        }
    }

    /// The lower bound lies strictly below the upper bound.
    pub open spec fn valid(&self) -> bool {
        self.lower() < self.upper()
    }

    /// `value` lies within the bounds.
    pub open spec fn admits(&self, value: int) -> bool {
        self.lower() <= value <= self.upper()
    }

    /// `value` brought into the bounds.
    pub open spec fn clamped(&self, value: int) -> int {
        clip_spec(value, self.lower(), self.upper())
    }

    /// The least value the position may hold.
    pub fn lower_value(&self) -> (r: i64)
        ensures
            r == self.lower(),
    {
        match self {
            SolutionDataTypes::Real(descriptor) => descriptor.lower_value(),
            SolutionDataTypes::Integer(descriptor) => descriptor.lower_value(),
            SolutionDataTypes::BitBinary(_) => 0,
        }
    }

    /// The greatest value the position may hold.
    pub fn upper_value(&self) -> (r: i64)
        ensures
            r == self.upper(),
    {
        match self {
            SolutionDataTypes::Real(descriptor) => descriptor.upper_value(),
            SolutionDataTypes::Integer(descriptor) => descriptor.upper_value(),
            SolutionDataTypes::BitBinary(_) => 1,
        }
    }

    /// Whether the lower bound lies strictly below the upper bound.
    pub fn is_valid(&self) -> (r: bool)
        ensures
            r == self.valid(),
    {
        self.lower_value() < self.upper_value()
    }

    /// Brings `value` into the bounds.
    pub fn clamp(&self, value: i64) -> (r: i64)
        ensures
            r == self.clamped(value as int),
            self.valid() ==> self.admits(r as int),
    {
        clip(value, self.lower_value(), self.upper_value())
    }

    /// A fresh value for the position: integer and binary positions draw
    /// from `rng`, a real position takes the caller's `draw` brought into
    /// range. Fails exactly when the descriptor is not valid; on success the
    /// value lies in `[lower, upper)` for a real or integer position and is
    /// 0 or 1 for a binary one.
    pub fn generate_value(&self, rng: &mut StdRng, draw: i64) -> (r: Result<i64, ConfigError>)
        ensures
            self.valid() ==> r is Ok && self.admits(r->Ok_0 as int),
            self.valid() && !(self is BitBinary) ==> r->Ok_0 < self.upper(),
            self.valid() && self is Real ==> r->Ok_0 == clip_spec(
                draw as int,
                self.lower(),
                self.upper() - 1,
            ),
            !self.valid() ==> r is Err && r->Err_0 == ConfigError::InvalidBounds,
    {
        match self {
            SolutionDataTypes::Real(descriptor) => descriptor.generate_value(draw),
            SolutionDataTypes::Integer(descriptor) => descriptor.generate_value(rng),
            SolutionDataTypes::BitBinary(descriptor) => descriptor.generate_value(rng),
        }
    }
}

/// The bounds a descriptor was declared with, if any.
pub trait SolutionTypeBounds {
    /// The declared lower bound.
    spec fn declared_lower(&self) -> Option<i64>;

    /// The declared upper bound.
    spec fn declared_upper(&self) -> Option<i64>;

    fn get_lower_bound(&self) -> (r: Option<i64>)
        ensures
            r == self.declared_lower(),
    ;

    fn get_upper_bound(&self) -> (r: Option<i64>)
        ensures
            r == self.declared_upper(),
    ;
}

impl SolutionTypeBounds for SolutionDataTypes {
    open spec fn declared_lower(&self) -> Option<i64> {
        match self {
            SolutionDataTypes::Real(descriptor) => descriptor.lower_bound,
            SolutionDataTypes::Integer(descriptor) => descriptor.lower_bound,
            SolutionDataTypes::BitBinary(_) => None,
        }
    }

    open spec fn declared_upper(&self) -> Option<i64> {
        match self {
            SolutionDataTypes::Real(descriptor) => descriptor.upper_bound,
            SolutionDataTypes::Integer(descriptor) => descriptor.upper_bound,
            SolutionDataTypes::BitBinary(_) => None,
        }
    }

    fn get_lower_bound(&self) -> (r: Option<i64>) {
        match self {
            SolutionDataTypes::Real(descriptor) => descriptor.lower_bound,
            SolutionDataTypes::Integer(descriptor) => descriptor.lower_bound,
            SolutionDataTypes::BitBinary(_) => None,
        }
    }

    fn get_upper_bound(&self) -> (r: Option<i64>) {
        match self {
            SolutionDataTypes::Real(descriptor) => descriptor.upper_bound,
            SolutionDataTypes::Integer(descriptor) => descriptor.upper_bound,
            SolutionDataTypes::BitBinary(_) => None,
        }
    }
}

} // verus!
