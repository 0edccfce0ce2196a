//! UTC instants at millisecond precision, carried as a count of Unix
//! epoch milliseconds. The calendar range matches the range of dates the
//! surrounding tooling can represent (years -9999 through 9999), and
//! construction rejects instants outside it.
use vstd::prelude::*;

verus! {

/// Unix seconds of -9999-01-01T00:00:00Z, the earliest representable instant.
pub const MIN_UNIX_SECONDS: i64 = -377705116800;

/// Unix seconds of 9999-12-31T23:59:59Z, the latest representable instant.
pub const MAX_UNIX_SECONDS: i64 = 253402300799;

/// Whether a millisecond count lies in the representable calendar range.
pub open spec fn valid_millis(m: int) -> bool {
    MIN_UNIX_SECONDS * 1000 <= m <= MAX_UNIX_SECONDS * 1000 + 999
}

/// Raised when a millisecond count lies outside the representable
/// calendar range.
#[derive(Debug, Clone, Copy, PartialEq, Eq, Structural)]
pub struct ComponentRangeError;

/// A UTC instant, as Unix epoch milliseconds.
#[derive(Debug, Clone, Copy, PartialEq, Eq, Hash, Structural)]
pub struct Timestamp {
    pub millis: i64,
}

impl View for Timestamp {
    type V = int;

    open spec fn view(&self) -> int {
        self.millis as int
    }
}

impl Timestamp {
    /// Whether this instant lies in the representable calendar range.
    pub open spec fn is_valid(&self) -> bool {
        valid_millis(self.millis as int)
    }

    /// Builds an instant from epoch milliseconds, rejecting counts
    /// outside the representable calendar range.
    pub fn from_unix_timestamp_millis(millis: i64) -> (r: Result<Timestamp, ComponentRangeError>)
        ensures
            r is Ok <==> valid_millis(millis as int),
            r matches Ok(t) ==> t.millis == millis,
    {
        if MIN_UNIX_SECONDS * 1000 <= millis && millis <= MAX_UNIX_SECONDS * 1000 + 999 {
            Ok(Timestamp { millis })
        } else {
            Err(ComponentRangeError)
        }
    }

    /// The instant as epoch milliseconds.
    pub fn unix_timestamp_millis(&self) -> (r: i64)
        ensures
            r == self.millis,
    {
        self.millis
    }

    /// The whole seconds since the epoch, rounding toward minus
    /// infinity, so that together with [`Timestamp::millisecond`] it
    /// decomposes the millisecond count exactly.
    pub fn unix_timestamp(&self) -> (r: i64)
        requires
            self.is_valid(),
        ensures
            r == self@ / 1000,
    {
        if self.millis >= 0 {
            self.millis / 1000
        } else {
            let pos: i64 = -(self.millis + 1);
            -(pos / 1000) - 1
        }
    }

    /// The milliseconds within the current second, in `0..1000`.
    pub fn millisecond(&self) -> (r: u16)
        requires
            self.is_valid(),
        ensures
            r == self@ % 1000,
    {
        if self.millis >= 0 {
            (self.millis % 1000) as u16
        } else {
            let pos: i64 = -(self.millis + 1);
            (999 - (pos % 1000)) as u16
        }
    }
}

/// Seconds and milliseconds decompose the millisecond count exactly:
/// converting an instant to whole seconds and a millisecond remainder
/// and recombining them yields the original epoch millisecond count.
pub proof fn lemma_timestamp_millis_decomposition(t: Timestamp)
    requires
        t.is_valid(),
    ensures
        1000 * (t@ / 1000) + t@ % 1000 == t@,
        0 <= t@ % 1000 < 1000,
{
    vstd::arithmetic::div_mod::lemma_fundamental_div_mod(t@, 1000);
}

} // verus!
