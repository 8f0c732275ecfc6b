//! Durations given as a magnitude and a unit tag, brought to microseconds.

use vstd::prelude::*;
use vstd::string::StrSliceExecFns;
use crate::error::Error;

verus! {

/// The unit of a duration.
#[derive(Debug, Clone, Copy, PartialEq, Eq, Structural)]
pub enum Unit {
    /// Tag `"sec"`.
    Seconds,
    /// Tag `"msec"`.
    Milliseconds,
    /// Tag `"usec"`.
    Microseconds,
}

impl Unit {
    /// How many microseconds one unit has.
    pub open spec fn micros(self) -> int {
        match self {
            Unit::Seconds => 1_000_000,
            Unit::Milliseconds => 1_000,
            Unit::Microseconds => 1,
        }
    }

    /// The unit that `tag` names, if it names one.
    pub open spec fn from_tag(tag: Seq<char>) -> Option<Unit> {
        if tag == "sec"@ {
            Some(Unit::Seconds)
        } else if tag == "msec"@ {
            Some(Unit::Milliseconds)
        } else if tag == "usec"@ {
            Some(Unit::Microseconds)
        } else {
            None
        }
    }

    /// The unit that `tag` names.
    pub fn parse(tag: &str) -> (unit: Result<Unit, Error>)
        ensures
            match Unit::from_tag(tag@) {
                Some(named) => unit == Ok::<Unit, Error>(named),
                None => unit == Err::<Unit, Error>(Error::InvalidUnit),
            },
    {
        if same_text(tag, "sec") {
            Ok(Unit::Seconds)
        } else if same_text(tag, "msec") {
            Ok(Unit::Milliseconds)
        } else if same_text(tag, "usec") {
            Ok(Unit::Microseconds)
        } else {
            Err(Error::InvalidUnit)
        }
    }

    /// The number of microseconds in one unit.
    pub fn multiplier(self) -> (factor: u64)
        ensures
            factor == self.micros(),
    {
        match self {
            Unit::Seconds => 1_000_000,
            Unit::Milliseconds => 1_000,
            Unit::Microseconds => 1,
        }
    }
}

/// A duration as it is given: so many units.
#[derive(Debug, Clone, Copy, PartialEq, Eq, Structural)]
pub struct Duration {
    /// How many units.
    pub magnitude: u64,
    /// Of which unit.
    pub unit: Unit,
}

impl Duration {
    /// The exact length in microseconds.
    pub open spec fn exact_micros(self) -> int {
        self.magnitude * self.unit.micros()
    }

    /// The length in microseconds, or `DurationOverflow` if it does not fit
    /// in 64 bits.
    pub fn micros(&self) -> (micros: Result<u64, Error>)
        ensures
            self.exact_micros() <= u64::MAX ==> micros == Ok::<u64, Error>(
                self.exact_micros() as u64,
            ),
            self.exact_micros() > u64::MAX ==> micros == Err::<u64, Error>(
                Error::DurationOverflow,
            ),
    {
        match self.magnitude.checked_mul(self.unit.multiplier()) {
            Some(micros) => Ok(micros),
            None => Err(Error::DurationOverflow),
        }
    }
}

/// What `normalize` answers for a magnitude and a unit tag.
pub open spec fn normalized(magnitude: u64, unit: Seq<char>) -> Result<u64, Error> {
    match Unit::from_tag(unit) {
        None => Err(Error::InvalidUnit),
        Some(named) => if magnitude * named.micros() <= u64::MAX {
            Ok((magnitude * named.micros()) as u64)
        } else {
            Err(Error::DurationOverflow)
        },
    }
}

/// `magnitude` units of `unit` in microseconds.
///
/// Fails with `InvalidUnit` for a tag other than `"sec"`, `"msec"`, `"usec"`,
/// and with `DurationOverflow` if the product does not fit in 64 bits.
pub fn normalize(magnitude: u64, unit: &str) -> (micros: Result<u64, Error>)
    ensures
        micros == normalized(magnitude, unit@),
{
    match Unit::parse(unit) {
        Ok(named) => Duration { magnitude, unit: named }.micros(),
        Err(error) => Err(error),
    }
}

/// Whether two texts hold the same characters.
fn same_text(left: &str, right: &str) -> (same: bool)
    ensures
        same == (left@ == right@),
{
    let length = left.unicode_len();
    if length != right.unicode_len() {
        return false;
    }
    let mut i: usize = 0;
    while i < length
        invariant
            length == left@.len(),
            length == right@.len(),
            i <= length,
            forall|j: int| 0 <= j < i ==> left@[j] == right@[j],
        decreases length - i,
    {
        if left.get_char(i) != right.get_char(i) {
            return false;
        }
        i += 1;
    }
    assert(left@ =~= right@);
    true
}

/// The three tags name the three units.
pub proof fn lemma_tags()
    ensures
        Unit::from_tag("sec"@) == Some(Unit::Seconds),
        Unit::from_tag("msec"@) == Some(Unit::Milliseconds),
        Unit::from_tag("usec"@) == Some(Unit::Microseconds),
{
    reveal_strlit("sec");
    reveal_strlit("msec");
    reveal_strlit("usec");
    assert("msec"@.len() != "sec"@.len());
    assert("usec"@.len() != "sec"@.len());
    assert("usec"@[0] != "msec"@[0]);
}

/// A recognised unit and a magnitude whose product fits give exactly the
/// magnitude times the unit's microseconds, and nothing is rounded: the
/// magnitude can be read back from the result.
pub proof fn lemma_normalize_exact(magnitude: u64, unit: Seq<char>)
    requires
        Unit::from_tag(unit) is Some,
        magnitude * Unit::from_tag(unit)->0.micros() <= u64::MAX,
    ensures
        normalized(magnitude, unit) is Ok,
        normalized(magnitude, unit)->Ok_0 == magnitude * Unit::from_tag(unit)->0.micros(),
        (normalized(magnitude, unit)->Ok_0 as int) / Unit::from_tag(unit)->0.micros() == magnitude,
        (normalized(magnitude, unit)->Ok_0 as int) % Unit::from_tag(unit)->0.micros() == 0,
{
    match Unit::from_tag(unit)->0 {
        Unit::Seconds => {
            assert((magnitude * 1_000_000) / 1_000_000 == magnitude);
            assert((magnitude * 1_000_000) % 1_000_000 == 0);
        },
        Unit::Milliseconds => {
            assert((magnitude * 1_000) / 1_000 == magnitude);
            assert((magnitude * 1_000) % 1_000 == 0);
        },
        Unit::Microseconds => {},
    }
}

/// A tag that names no unit is refused with `InvalidUnit`, whatever the
/// magnitude.
pub proof fn lemma_normalize_unknown_unit(magnitude: u64, unit: Seq<char>)
    requires
        Unit::from_tag(unit) is None,
    ensures
        normalized(magnitude, unit) == Err::<u64, Error>(Error::InvalidUnit),
{
}

} // verus!
