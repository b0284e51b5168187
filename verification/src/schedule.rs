//! Wall-clock arithmetic: instants, minute boundaries and the fields of the
//! local time of day that the update loop decides on.

use vstd::prelude::*;

verus! {

/// The most whole seconds from the epoch that, counted in nanoseconds, fit
/// a signed 64-bit number.
pub const MAX_SECONDS: i64 = 9_223_372_036;

/// Nanoseconds in a second.
pub const NANOS_PER_SECOND: u32 = 1_000_000_000;

/// A reading of the local wall clock: whole seconds since the epoch of the
/// local calendar, and the nanoseconds into that second.
#[derive(Clone, Copy, Debug, PartialEq, Eq, Structural)]
pub struct Instant {
    secs: i64,
    nanos: u32,
}

/// A span of time that is not negative.
#[derive(Clone, Copy, Debug, PartialEq, Eq, Structural)]
pub struct Span {
    pub secs: u64,
    pub nanos: u32,
}

/// A minute boundary of the local wall clock: the instant that drives one
/// round of the update loop.
#[derive(Clone, Copy, Debug, PartialEq, Eq, Structural)]
pub struct Tick {
    secs: i64,
}

/// The hours of the day, both ends included, during which the display is
/// refreshed every minute and the hourly chime is played.
#[derive(Clone, Copy, Debug, PartialEq, Eq, Structural)]
pub struct DayWindow {
    pub first_hour: u32,
    pub last_hour: u32,
}

/// Whether a reading of `secs` seconds and `nanos` nanoseconds is one that
/// the scheduler can work on: its nanoseconds stay within the second, and
/// its whole seconds lie no further from the epoch than `MAX_SECONDS`.
pub open spec fn readable(secs: int, nanos: int) -> bool {
    &&& -MAX_SECONDS <= secs <= MAX_SECONDS
    &&& 0 <= nanos < NANOS_PER_SECOND
}

impl Instant {
    /// Whole seconds since the epoch.
    pub closed spec fn seconds(self) -> int {
        self.secs as int
    }

    /// Nanoseconds into the second.
    pub closed spec fn subsec(self) -> int {
        self.nanos as int
    }

    /// Every reading is one that the scheduler can work on.
    #[verifier::type_invariant]
    pub closed spec fn in_range(self) -> bool {
        readable(self.secs as int, self.nanos as int)
    }

    /// Nanoseconds since the epoch.
    pub open spec fn as_nanos(self) -> int {
        self.seconds() * 1_000_000_000 + self.subsec()
    }

    /// The reading with the given fields, if it is one that the scheduler
    /// can work on.
    pub fn new(secs: i64, nanos: u32) -> (r: Option<Instant>)
        ensures
            r is Some <==> readable(secs as int, nanos as int),
            r is Some ==> r->0.seconds() == secs && r->0.subsec() == nanos && r->0.in_range(),
    {
        if -MAX_SECONDS <= secs && secs <= MAX_SECONDS && nanos < NANOS_PER_SECOND {
            Some(Instant { secs, nanos })
        } else {
            None
        }
    }

    pub fn secs(&self) -> (r: i64)
        ensures
            r == self.seconds(),
            -MAX_SECONDS <= r <= MAX_SECONDS,
    {
        proof {
            use_type_invariant(self);
        }
        self.secs
    }

    pub fn nanos(&self) -> (r: u32)
        ensures
            r == self.subsec(),
            r < NANOS_PER_SECOND,
    {
        proof {
            use_type_invariant(self);
        }
        self.nanos
    }

    /// Whether at least `secs` seconds lie between `earlier` and this reading.
    pub fn has_passed(&self, earlier: &Instant, secs: u32) -> (r: bool)
        ensures
            r == (self.as_nanos() - earlier.as_nanos() >= secs * 1_000_000_000),
    {
        proof {
            use_type_invariant(self);
            use_type_invariant(earlier);
        }
        let due: i64 = earlier.secs + secs as i64;
        self.secs > due || (self.secs == due && self.nanos >= earlier.nanos)
    }
}

impl Span {
    /// The span in nanoseconds.
    pub open spec fn as_nanos(self) -> int {
        self.secs * 1_000_000_000 + self.nanos
    }
}

/// The minute of the hour at `secs` seconds after the epoch.
pub open spec fn minute_of(secs: int) -> int {
    (secs / 60) % 60
}

/// The hour of the day at `secs` seconds after the epoch.
pub open spec fn hour_of(secs: int) -> int {
    (secs / 3600) % 24
}

/// The hour on a twelve-hour dial: 12 stands for both midnight and noon.
pub open spec fn hour12_of(secs: int) -> int {
    if hour_of(secs) % 12 == 0 {
        12
    } else {
        hour_of(secs) % 12
    }
}

/// The start of the first whole minute that lies strictly after the reading
/// of `secs` whole seconds and any fraction of a second.
pub open spec fn boundary_after(secs: int) -> int {
    (secs / 60) * 60 + 60
}

/// The minute and the hour of an instant depend only on how far it lies
/// into its day.
proof fn lemma_time_of_day(secs: int)
    ensures
        minute_of(secs) == ((secs % 86_400) / 60) % 60,
        hour_of(secs) == (secs % 86_400) / 3600,
{
    let day: int = secs / 86_400;
    let rest: int = secs % 86_400;
    assert(secs == 86_400 * day + rest);
    assert(secs / 60 == 1440 * day + rest / 60);
    assert((1440 * day + rest / 60) % 60 == (rest / 60) % 60);
    assert(secs / 3600 == 24 * day + rest / 3600);
    assert((24 * day + rest / 3600) % 24 == rest / 3600);
}

impl Tick {
    /// Seconds since the epoch of the local calendar.
    pub closed spec fn seconds(self) -> int {
        self.secs as int
    }

    /// A tick is a minute boundary, and lies no further from the epoch
    /// than the boundary after the last reading of the clock.
    #[verifier::type_invariant]
    pub open spec fn wf(self) -> bool {
        &&& self.seconds() % 60 == 0
        &&& -MAX_SECONDS - 60 <= self.seconds() <= MAX_SECONDS + 60
    }

    pub open spec fn as_nanos(self) -> int {
        self.seconds() * 1_000_000_000
    }

    pub open spec fn spec_minute(self) -> int {
        minute_of(self.seconds())
    }

    pub open spec fn spec_hour(self) -> int {
        hour_of(self.seconds())
    }

    pub open spec fn spec_hour12(self) -> int {
        hour12_of(self.seconds())
    }

    /// The tick at `secs`, if that is a minute boundary within range.
    pub fn from_seconds(secs: i64) -> (r: Option<Tick>)
        ensures
            r is Some <==> (secs % 60 == 0 && -MAX_SECONDS - 60 <= secs <= MAX_SECONDS + 60),
            r is Some ==> r->0.wf() && r->0.seconds() == secs,
    {
        if -MAX_SECONDS - 60 <= secs && secs <= MAX_SECONDS + 60 && secs % 60 == 0 {
            Some(Tick { secs })
        } else {
            None
        }
    }

    pub fn secs(&self) -> (r: i64)
        ensures
            r == self.seconds(),
            self.wf(),
    {
        proof {
            use_type_invariant(self);
        }
        self.secs
    }

    /// Seconds since the last midnight.
    fn second_of_day(&self) -> (r: u32)
        ensures
            r == self.seconds() % 86_400,
            r < 86_400,
    {
        proof {
            use_type_invariant(self);
        }
        let m: i64 = self.secs % 86_400;
        if m < 0 {
            (m + 86_400) as u32
        } else {
            m as u32
        }
    }

    /// Minute of the hour, from 0 to 59.
    pub fn minute(&self) -> (r: u32)
        ensures
            r == self.spec_minute(),
            r < 60,
    {
        proof {
            lemma_time_of_day(self.seconds());
        }
        (self.second_of_day() / 60) % 60
    }

    /// Hour of the day, from 0 to 23.
    pub fn hour(&self) -> (r: u32)
        ensures
            r == self.spec_hour(),
            r < 24,
    {
        proof {
            lemma_time_of_day(self.seconds());
        }
        self.second_of_day() / 3600
    }

    /// Whether the tick lies in the afternoon, and its hour on a twelve-hour
    /// dial, from 1 to 12.
    pub fn hour12(&self) -> (r: (bool, u32))
        ensures
            r.0 == (self.spec_hour() >= 12),
            r.1 == self.spec_hour12(),
            1 <= r.1 <= 12,
    {
        let hour: u32 = self.hour();
        let on_dial: u32 = hour % 12;
        (hour >= 12, if on_dial == 0 { 12 } else { on_dial })
    }

    /// How long to wait from `now` until the tick; `None` once the tick
    /// has passed.
    pub fn time_until(&self, now: Instant) -> (r: Option<Span>)
        ensures
            r is Some <==> self.as_nanos() >= now.as_nanos(),
            r is Some ==> r->0.as_nanos() == self.as_nanos() - now.as_nanos(),
            r is Some ==> r->0.nanos < NANOS_PER_SECOND,
    {
        proof {
            use_type_invariant(self);
            use_type_invariant(now);
        }
        if self.secs < now.secs || (self.secs == now.secs && now.nanos > 0) {
            None
        } else if now.nanos == 0 {
            Some(Span { secs: (self.secs - now.secs) as u64, nanos: 0 })
        } else {
            Some(Span { secs: (self.secs - now.secs - 1) as u64, nanos: NANOS_PER_SECOND - now.nanos })
        }
    }
}

impl DayWindow {
    /// Whether the hour lies outside the window.
    pub open spec fn is_night(self, hour: int) -> bool {
        hour < self.first_hour || hour > self.last_hour
    }
}

/// The start of the next whole minute strictly after `now`.
pub fn next_boundary(now: Instant) -> (tick: Tick)
    ensures
        tick.wf(),
        tick.seconds() == boundary_after(now.seconds()),
        tick.as_nanos() > now.as_nanos(),
        tick.as_nanos() - now.as_nanos() <= 60_000_000_000,
        tick.seconds() % 60 == 0,
{
    proof {
        use_type_invariant(now);
    }
    let m: i64 = now.secs % 60;
    let into_minute: i64 = if m < 0 { m + 60 } else { m };
    Tick { secs: now.secs - into_minute + 60 }
}

/// Whether the tick falls outside the day window, when updates are throttled
/// and the chime stays silent.
pub fn night_time(tick: &Tick, window: &DayWindow) -> (r: bool)
    ensures
        r == window.is_night(tick.spec_hour()),
{
    let hour: u32 = tick.hour();
    hour < window.first_hour || hour > window.last_hour
}

} // verus!
