//! Points in time and spans of time, counted in whole nanoseconds.
use vstd::prelude::*;

verus! {

/// A span of time.
#[derive(Clone, Copy, Debug, PartialEq, Eq, PartialOrd, Ord, Hash, Structural)]
pub struct Duration {
    nanos: u128,
}

impl Duration {
    /// The span in nanoseconds.
    pub closed spec fn nanos(self) -> nat {
        self.nanos as nat
    }

    /// No span is longer than `u64::MAX` seconds and a fraction of a second.
    #[verifier::type_invariant]
    spec fn representable(self) -> bool {
        self.nanos < 0x1_0000_0000_0000_0000 * 1_000_000_000
    }

    /// A span of whole seconds.
    pub fn from_secs(secs: u64) -> (r: Self)
        ensures
            r.nanos() == secs * 1_000_000_000,
    {
        Duration { nanos: secs as u128 * 1_000_000_000 }
    }

    /// A span of whole milliseconds.
    pub fn from_millis(millis: u64) -> (r: Self)
        ensures
            r.nanos() == millis * 1_000_000,
    {
        Duration { nanos: millis as u128 * 1_000_000 }
    }

    /// A span of whole nanoseconds.
    pub fn from_nanos(nanos: u64) -> (r: Self)
        ensures
            r.nanos() == nanos,
    {
        Duration { nanos: nanos as u128 }
    }

    /// The whole seconds in this span.
    pub fn as_secs(self) -> (r: u64)
        ensures
            r == self.nanos() / 1_000_000_000,
    {
        proof {
            use_type_invariant(self);
        }
        (self.nanos / 1_000_000_000) as u64
    }

    /// The nanoseconds in this span.
    pub fn as_nanos(self) -> (r: u128)
        ensures
            r == self.nanos(),
    {
        self.nanos
    }
}

/// The nanoseconds from the origin that no point in time reaches: `i64::MAX` whole seconds and a
/// fraction of a second are the most.
pub const INSTANT_END_NANOS: u128 = 9_223_372_036_854_775_808_000_000_000;

/// A point in time, counted in nanoseconds from a fixed origin.
#[derive(Clone, Copy, Debug, PartialEq, Eq, PartialOrd, Ord, Hash, Structural)]
pub struct Instant {
    nanos: u128,
}

/// Reads the system clock through `std::time::SystemTime::elapsed` on the Unix epoch, and hands
/// its whole seconds and the nanoseconds beyond them back, none where the clock stands before the
/// epoch. Nothing is claimed of the reading.
#[verifier::external_body]
fn unix_clock() -> Option<(u64, u32)> {
    std::time::UNIX_EPOCH.elapsed().ok().map(|span| (span.as_secs(), span.subsec_nanos()))
}

/// The milliseconds since the Unix epoch in the reading of a clock, capped at what a `u64` holds;
/// zero where there is no reading.
pub open spec fn unix_ms(reading: Option<(u64, u32)>) -> u64 {
    match reading {
        Some((secs, nanos)) => if secs * 1_000 + nanos / 1_000_000 <= u64::MAX {
            (secs * 1_000 + nanos / 1_000_000) as u64
        } else {
            u64::MAX
        },
        None => 0,
    }
}

/// Counts the milliseconds since the Unix epoch in the reading of a clock.
pub fn unix_ms_from_reading(reading: Option<(u64, u32)>) -> (r: u64)
    ensures
        r == unix_ms(reading),
{
    match reading {
        Some((secs, nanos)) => {
            let millis: u128 = secs as u128 * 1_000 + (nanos / 1_000_000) as u128;
            if millis <= 0xffff_ffff_ffff_ffff {
                millis as u64
            } else {
                u64::MAX
            }
        },
        None => 0,
    }
}

/// The current Unix time in milliseconds.
pub fn current_unix_ms() -> (r: u64)
    ensures
        exists|reading: Option<(u64, u32)>| r == #[trigger] unix_ms(reading),
{
    unix_ms_from_reading(unix_clock())
}

/// Reads the clock that never goes back through `nix::time::clock_gettime` with
/// `CLOCK_MONOTONIC`, and hands its whole seconds and the nanoseconds beyond them back, none where
/// the clock cannot be read. Nothing is claimed of the reading.
#[verifier::external_body]
fn monotonic_clock() -> Option<(i64, i64)> {
    let reading = nix::time::clock_gettime(nix::time::ClockId::CLOCK_MONOTONIC).ok()?;
    Some((i64::from(reading.tv_sec()), i64::from(reading.tv_nsec())))
}

/// The nanoseconds after the origin in the reading of a clock; none where there is no reading or it
/// lies before the origin.
pub open spec fn nanos_in(reading: Option<(i64, i64)>) -> nat {
    match reading {
        Some((secs, nanos)) => if secs >= 0 && 0 <= nanos < 1_000_000_000 {
            (secs * 1_000_000_000 + nanos) as nat
        } else {
            0
        },
        None => 0,
    }
}

impl Instant {
    /// The nanoseconds between the origin and this point.
    pub closed spec fn nanos(self) -> nat {
        self.nanos as nat
    }

    #[verifier::type_invariant]
    spec fn representable(self) -> bool {
        self.nanos < INSTANT_END_NANOS
    }

    /// The current time, from a clock that never goes back.
    pub fn now() -> (r: Self)
        ensures
            exists|reading: Option<(i64, i64)>| r.nanos() == #[trigger] nanos_in(reading),
    {
        Instant::from_reading(monotonic_clock())
    }

    /// The point that the reading of a clock stands for.
    pub fn from_reading(reading: Option<(i64, i64)>) -> (r: Self)
        ensures
            r.nanos() == nanos_in(reading),
    {
        match reading {
            Some((secs, nanos)) => if secs >= 0 && nanos >= 0 && nanos < 1_000_000_000 {
                Instant { nanos: secs as u128 * 1_000_000_000 + nanos as u128 }
            } else {
                Instant { nanos: 0 }
            },
            None => Instant { nanos: 0 },
        }
    }

    /// The point `nanos` nanoseconds after the origin.
    pub fn from_nanos(nanos: u64) -> (r: Self)
        ensures
            r.nanos() == nanos,
    {
        Instant { nanos: nanos as u128 }
    }

    /// The last point there is.
    pub fn last() -> (r: Self)
        ensures
            r.nanos() == INSTANT_END_NANOS - 1,
    {
        Instant { nanos: INSTANT_END_NANOS - 1 }
    }

    /// The nanoseconds between the origin and this point.
    pub fn as_nanos(self) -> (r: u128)
        ensures
            r == self.nanos(),
    {
        self.nanos
    }

    /// The point `span` later, if it can still be represented.
    pub fn checked_add(self, span: Duration) -> (r: Option<Self>)
        ensures
            match r {
                Some(later) => later.nanos() == self.nanos() + span.nanos() && self.nanos() + span.nanos()
                    < INSTANT_END_NANOS,
                None => self.nanos() + span.nanos() >= INSTANT_END_NANOS,
            },
    {
        proof {
            use_type_invariant(self);
            use_type_invariant(span);
        }
        let sum: u128 = self.nanos + span.nanos;
        if sum < INSTANT_END_NANOS {
            Some(Instant { nanos: sum })
        } else {
            None
        }
    }

    /// The time that passed since `earlier`, zero if `earlier` lies after this point.
    pub fn saturating_duration_since(self, earlier: Instant) -> (r: Duration)
        ensures
            r.nanos() == if self.nanos() >= earlier.nanos() {
                (self.nanos() - earlier.nanos()) as nat
            } else {
                0
            },
    {
        proof {
            use_type_invariant(self);
        }
        if self.nanos >= earlier.nanos {
            Duration { nanos: self.nanos - earlier.nanos }
        } else {
            Duration { nanos: 0 }
        }
    }

    /// The later of two points.
    pub fn later_of(self, other: Instant) -> (r: Instant)
        ensures
            r == later(self, other),
    {
        if other.nanos >= self.nanos {
            other
        } else {
            self
        }
    }

    /// The earlier of two points.
    pub fn earlier_of(self, other: Instant) -> (r: Instant)
        ensures
            r == earlier(self, other),
    {
        if other.nanos < self.nanos {
            other
        } else {
            self
        }
    }
}

/// The later of two points in time.
pub open spec fn later(a: Instant, b: Instant) -> Instant {
    if b.nanos() >= a.nanos() {
        b
    } else {
        a
    }
}

/// The earlier of two points in time.
pub open spec fn earlier(a: Instant, b: Instant) -> Instant {
    if b.nanos() < a.nanos() {
        b
    } else {
        a
    }
}

/// A reading of the clock is told in milliseconds, rounded down, and never past what can be told; a clock
/// that cannot be read is told as zero.
pub proof fn clock_is_told_in_milliseconds(secs: u64, nanos: u32, later_secs: u64, later_nanos: u32)
    ensures
        unix_ms(None) == 0,
        secs * 1_000 + nanos / 1_000_000 <= u64::MAX ==> {
            let told = unix_ms(Some((secs, nanos)));
            &&& told * 1_000_000 <= secs * 1_000_000_000 + nanos
            &&& secs * 1_000_000_000 + nanos < told * 1_000_000 + 1_000_000
        },
        secs * 1_000 + nanos / 1_000_000 > u64::MAX ==> unix_ms(Some((secs, nanos))) == u64::MAX,
        secs <= later_secs && nanos <= later_nanos ==> unix_ms(Some((secs, nanos))) <= unix_ms(
            Some((later_secs, later_nanos)),
        ),
{
}

/// The nanoseconds of a reading are its whole seconds and what is left of the next; a reading that is not
/// one counts as zero.
pub proof fn readings_are_told_in_nanoseconds(secs: i64, nanos: i64)
    ensures
        nanos_in(None) == 0,
        secs >= 0 && 0 <= nanos < 1_000_000_000 ==> nanos_in(Some((secs, nanos))) / 1_000_000_000 == secs
            && nanos_in(Some((secs, nanos))) % 1_000_000_000 == nanos,
        secs < 0 || nanos < 0 || nanos >= 1_000_000_000 ==> nanos_in(Some((secs, nanos))) == 0,
{
}

/// The later of two instants is one of them and not before either; the earlier is one of them and not
/// after either.
pub proof fn instants_are_ordered(a: Instant, b: Instant)
    ensures
        later(a, b) == a || later(a, b) == b,
        later(a, b).nanos() >= a.nanos() && later(a, b).nanos() >= b.nanos(),
        earlier(a, b) == a || earlier(a, b) == b,
        earlier(a, b).nanos() <= a.nanos() && earlier(a, b).nanos() <= b.nanos(),
        later(a, b).nanos() + earlier(a, b).nanos() == a.nanos() + b.nanos(),
{
}

} // verus!
