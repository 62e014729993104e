//! Identities, counters and instants as the store holds them in PostgreSQL:
//! a UUID, a non-negative `bigint`, and a UTC instant.
use vstd::prelude::*;

verus! {

/// Largest value a PostgreSQL `bigint` column can hold.
pub const DB_MAX: u64 = 9223372036854775807u64;

/// A UUID, held as its 128-bit value.
#[derive(Clone, Copy, Debug, PartialEq, Eq, PartialOrd, Ord, Hash, Structural)]
pub struct Id(pub u128);

/// A non-negative counter that fits a `bigint` column.
#[derive(Clone, Copy, Debug, PartialEq, Eq, PartialOrd, Ord, Hash, Structural)]
pub struct DbCounter {
    value: u64,
}

/// The refusal of a counter outside `0..=i64::MAX`.
#[derive(Clone, Copy, Debug, PartialEq, Eq, Structural)]
pub struct CounterRange;

impl DbCounter {
    #[verifier::type_invariant]
    spec fn fits(self) -> bool {
        self.value <= DB_MAX
    }

    /// The counted amount.
    pub closed spec fn amount(self) -> nat {
        self.value as nat
    }

    pub fn new(value: u64) -> (r: Result<DbCounter, CounterRange>)
        ensures
            value <= DB_MAX <==> r is Ok,
            r matches Ok(c) ==> c.amount() == value,
    {
        if value <= DB_MAX {
            Ok(DbCounter { value })
        } else {
            Err(CounterRange)
        }
    }

    pub fn zero() -> (r: DbCounter)
        ensures
            r.amount() == 0,
    {
        DbCounter { value: 0 }
    }

    pub fn get(&self) -> (r: u64)
        ensures
            r == self.amount(),
            r <= DB_MAX,
    {
        proof {
            use_type_invariant(self);
        }
        self.value
    }
}

/// A monotone revision number of a stored row.
#[derive(Clone, Copy, Debug, PartialEq, Eq, PartialOrd, Ord, Hash, Structural)]
pub struct Revision(pub u64);

/// A UTC instant, as nanoseconds since the UNIX epoch.
#[derive(Clone, Copy, Debug, PartialEq, Eq, PartialOrd, Ord, Hash, Structural)]
pub struct UtcTime {
    pub nanos: i128,
}

impl UtcTime {
    /// The instant `micros` microseconds after the epoch.
    pub fn from_timestamp_micros(micros: i64) -> (r: UtcTime)
        ensures
            r.nanos == micros * 1000,
    {
        UtcTime { nanos: micros as i128 * 1000 }
    }

    /// The instant `nanos` nanoseconds after the epoch.
    pub fn from_timestamp_nanos(nanos: i64) -> (r: UtcTime)
        ensures
            r.nanos == nanos,
    {
        UtcTime { nanos: nanos as i128 }
    }

    /// The nanoseconds since the epoch, where they fit an `i64`.
    pub fn timestamp_nanos_opt(&self) -> (r: Option<i64>)
        ensures
            (i64::MIN <= self.nanos <= i64::MAX) <==> r is Some,
            r matches Some(n) ==> n == self.nanos,
    {
        if i64::MIN as i128 <= self.nanos && self.nanos <= i64::MAX as i128 {
            Some(self.nanos as i64)
        } else {
            None
        }
    }

    /// The nanoseconds past the last whole second.
    pub fn timestamp_subsec_nanos(&self) -> (r: u32)
        ensures
            r == self.nanos % 1_000_000_000,
    {
        let r = self.nanos % 1_000_000_000;
        if r < 0 {
            (r + 1_000_000_000) as u32
        } else {
            r as u32
        }
    }

    /// Whether the instant lies on a whole microsecond, the precision PostgreSQL keeps.
    pub fn is_micro_precise(&self) -> (r: bool)
        ensures
            r == (self.nanos % 1000 == 0),
    {
        self.nanos % 1000 == 0
    }

    pub fn is_before(&self, other: &UtcTime) -> (r: bool)
        ensures
            r == (self.nanos < other.nanos),
    {
        self.nanos < other.nanos
    }

    /// The instant `seconds` later (earlier, where negative), as chrono's
    /// `TimeDelta::try_seconds` and `DateTime::<Utc>::checked_add_signed` give it:
    /// `None` where the offset or the result is out of their range.
    pub fn checked_add_seconds(&self, seconds: i64) -> (r: Option<UtcTime>)
        ensures
            r == plus_seconds(*self, seconds as int),
    {
        if seconds < -DELTA_MAX_SECONDS || seconds > DELTA_MAX_SECONDS {
            return None;
        }
        let offset: i128 = seconds as i128 * 1_000_000_000;
        match self.nanos.checked_add(offset) {
            Some(n) => {
                if UTC_MIN_NANOS <= n && n <= UTC_MAX_NANOS {
                    Some(UtcTime { nanos: n })
                } else {
                    None
                }
            },
            None => None,
        }
    }
}

/// The earliest instant a chrono `DateTime<Utc>` holds: -262143-01-01T00:00:00Z.
pub const UTC_MIN_NANOS: i128 = -8334601315200000000000i128;

/// The latest instant a chrono `DateTime<Utc>` holds: +262142-12-31T23:59:59.999999999Z.
pub const UTC_MAX_NANOS: i128 = 8210266876799999999999i128;

/// The most whole seconds a chrono `TimeDelta` holds either way: `i64::MAX` milliseconds.
pub const DELTA_MAX_SECONDS: i64 = 9223372036854775i64;

pub open spec fn in_utc_range(nanos: int) -> bool {
    UTC_MIN_NANOS <= nanos <= UTC_MAX_NANOS
}

/// `time + seconds`, where both the offset and the result are representable.
pub open spec fn plus_seconds(time: UtcTime, seconds: int) -> Option<UtcTime> {
    if -DELTA_MAX_SECONDS <= seconds <= DELTA_MAX_SECONDS && in_utc_range(
        time.nanos + seconds * 1_000_000_000,
    ) {
        Some(UtcTime { nanos: (time.nanos + seconds * 1_000_000_000) as i128 })
    } else {
        None
    }
}

} // verus!

verus! {

/// An exact decimal amount in canonical form: the mantissa carries no trailing
/// zero digit beyond the point, and zero has scale 0. Two canonical decimals
/// are numerically equal exactly when their parts are equal.
#[derive(Clone, Copy, Debug, PartialEq, Eq, Hash, Structural)]
pub struct DecimalValue {
    mantissa: i128,
    scale: u32,
}

impl DecimalValue {
    #[verifier::type_invariant]
    spec fn canonical(self) -> bool {
        &&& (self.mantissa == 0 ==> self.scale == 0)
        &&& (self.scale > 0 ==> self.mantissa % 10 != 0)
    }

    /// The digits, without the decimal point.
    pub closed spec fn digits(self) -> int {
        self.mantissa as int
    }

    /// How many of the digits stand after the decimal point.
    pub closed spec fn places(self) -> nat {
        self.scale as nat
    }

    /// `mantissa * 10^-scale`, with trailing zero digits after the point removed.
    pub fn new(mantissa: i128, scale: u32) -> (r: DecimalValue)
        ensures
            r.places() <= scale,
            r.digits() * crate::ids::pow10((scale - r.places()) as nat) == mantissa,
            (r.digits() > 0) == (mantissa > 0),
            (r.digits() < 0) == (mantissa < 0),
    {
        let mut m = mantissa;
        let mut s = scale;
        while s > 0 && m % 10 == 0
            invariant
                s <= scale,
                m * pow10((scale - s) as nat) == mantissa,
                (m > 0) == (mantissa > 0),
                (m < 0) == (mantissa < 0),
            decreases s,
        {
            proof {
                lemma_pow10_step((scale - s) as nat);
                assert(m == (m / 10) * 10);
                assert((m / 10) * (10 * pow10((scale - s) as nat)) == (m / 10) * 10 * pow10(
                    (scale - s) as nat,
                )) by (nonlinear_arith);
            }
            m = m / 10;
            s = s - 1;
        }
        if m == 0 {
            proof {
                assert(0 * pow10((scale - 0) as nat) == 0) by (nonlinear_arith);
            }
            return DecimalValue { mantissa: 0, scale: 0 };
        }
        DecimalValue { mantissa: m, scale: s }
    }

    pub fn is_positive(&self) -> (r: bool)
        ensures
            r == (self.digits() > 0),
    {
        self.mantissa > 0
    }

    pub fn is_nonnegative(&self) -> (r: bool)
        ensures
            r == (self.digits() >= 0),
    {
        self.mantissa >= 0
    }

    pub fn parts(&self) -> (r: (i128, u32))
        ensures
            r.0 == self.digits(),
            r.1 == self.places(),
    {
        (self.mantissa, self.scale)
    }
}

pub open spec fn pow10(n: nat) -> int
    decreases n,
{
    if n == 0 {
        1
    } else {
        10 * pow10((n - 1) as nat)
    }
}

proof fn lemma_pow10_step(n: nat)
    ensures
        pow10(n + 1) == 10 * pow10(n),
{
}

} // verus!
