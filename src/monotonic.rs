use vstd::prelude::*;

verus! {

/// Nanoseconds in one second.
pub const NANOS_PER_SEC: u64 = 1_000_000_000;

/// The nanosecond count denoted by a reading of `sec` whole seconds and `nsec`
/// nanoseconds.
pub open spec fn timespec_nanos(sec: int, nsec: int) -> int {
    sec * 1_000_000_000 + nsec
}

/// A reading whose nanosecond count is neither negative nor beyond `u64`.
pub open spec fn timespec_fits(sec: int, nsec: int) -> bool {
    0 <= sec && 0 <= nsec && timespec_nanos(sec, nsec) <= u64::MAX
}

/// Clock over a native counter that already reports seconds and nanoseconds
/// since an arbitrary fixed point; it needs no conversion factor.
#[derive(Debug, Clone, Copy)]
pub struct Monotonic {}

impl Monotonic {
    /// Builds the clock; there is nothing to query.
    pub fn new() -> (r: Monotonic)
        ensures
            r == (Monotonic {}),
    {
        Monotonic {}
    }

    /// Nanoseconds denoted by a native reading of `sec` seconds and `nsec`
    /// nanoseconds, or `None` when that count is negative or does not fit in
    /// a `u64`.
    pub fn nanos_from_timespec(&self, sec: i64, nsec: i64) -> (r: Option<u64>)
        ensures
            r == (if timespec_fits(sec as int, nsec as int) {
                Some(timespec_nanos(sec as int, nsec as int) as u64)
            } else {
                None
            }),
    {
        if sec < 0 || nsec < 0 {
            return None;
        }
        match (sec as u64).checked_mul(NANOS_PER_SEC) {
            None => None,
            Some(whole) => whole.checked_add(nsec as u64),
        }
    }
}

impl Default for Monotonic {
    /// Same as [`Monotonic::new`].
    fn default() -> (r: Self)
        ensures
            r == (Monotonic {}),
    {
        Monotonic::new()
    }
}

/// The nanosecond count denoted by `raw` ticks at `factor` nanoseconds a tick.
pub open spec fn ticks_nanos(raw: int, factor: int) -> int {
    raw * factor
}

/// Clock over a native counter that ticks at a platform rate. The whole
/// number of nanoseconds in a tick is computed once, when the clock is built,
/// and never changes. Integer division fixes it, so a rate of more than one
/// tick a nanosecond gives a factor of 0, and every timestamp reads 0.
#[derive(Debug, Clone, Copy)]
pub struct TickMonotonic {
    factor: u64,
}

impl View for TickMonotonic {
    type V = nat;

    /// Nanoseconds a tick.
    closed spec fn view(&self) -> nat {
        self.factor as nat
    }
}

impl TickMonotonic {
    /// Builds the clock of a counter that ticks `frequency` times a second.
    pub fn from_frequency(frequency: u64) -> (r: TickMonotonic)
        requires
            frequency > 0,
        ensures
            r@ == NANOS_PER_SEC / frequency,
    {
        TickMonotonic { factor: NANOS_PER_SEC / frequency }
    }

    /// Builds the clock of a counter whose ticks last `numer / denom`
    /// nanoseconds.
    pub fn from_timebase(numer: u32, denom: u32) -> (r: TickMonotonic)
        requires
            denom > 0,
        ensures
            r@ == numer / denom,
    {
        TickMonotonic { factor: (numer as u64) / (denom as u64) }
    }

    /// Nanoseconds in one tick.
    pub fn factor(&self) -> (r: u64)
        ensures
            r == self@,
    {
        self.factor
    }

    /// Nanoseconds denoted by a native reading of `raw` ticks, or `None`
    /// when that count does not fit in a `u64`.
    pub fn nanos_from_ticks(&self, raw: u64) -> (r: Option<u64>)
        ensures
            r == (if ticks_nanos(raw as int, self@ as int) <= u64::MAX {
                Some(ticks_nanos(raw as int, self@ as int) as u64)
            } else {
                None
            }),
    {
        raw.checked_mul(self.factor)
    }
}

/// A later reading never converts to fewer nanoseconds: where `(sec1, nsec1)`
/// comes no later than `(sec2, nsec2)`, seconds first, and each nanosecond
/// part is under a second, the first count is at most the second.
pub proof fn lemma_timespec_nanos_monotonic(sec1: int, nsec1: int, sec2: int, nsec2: int)
    requires
        0 <= nsec1 < 1_000_000_000,
        0 <= nsec2 < 1_000_000_000,
        sec1 < sec2 || (sec1 == sec2 && nsec1 <= nsec2),
    ensures
        timespec_nanos(sec1, nsec1) <= timespec_nanos(sec2, nsec2),
{
    if sec1 < sec2 {
        assert(sec1 * 1_000_000_000 + 1_000_000_000 <= sec2 * 1_000_000_000) by (nonlinear_arith)
            requires
                sec1 < sec2,
        ;
    }
}

/// A later tick count never converts to fewer nanoseconds, whatever the
/// factor.
pub proof fn lemma_ticks_nanos_monotonic(raw1: u64, raw2: u64, factor: nat)
    requires
        raw1 <= raw2,
    ensures
        ticks_nanos(raw1 as int, factor as int) <= ticks_nanos(raw2 as int, factor as int),
{
    assert(raw1 * factor <= raw2 * factor) by (nonlinear_arith)
        requires
            raw1 <= raw2,
            factor >= 0,
    ;
}

/// Two clocks built from the same counter frequency are the same clock, so
/// they turn every reading into the same count.
pub proof fn lemma_same_frequency_same_clock(frequency: u64, a: TickMonotonic, b: TickMonotonic)
    requires
        frequency > 0,
        a@ == NANOS_PER_SEC / frequency,
        b@ == NANOS_PER_SEC / frequency,
    ensures
        a == b,
{
}

/// Two clocks built from the same timebase are the same clock, so they turn
/// every reading into the same count.
pub proof fn lemma_same_timebase_same_clock(numer: u32, denom: u32, a: TickMonotonic, b: TickMonotonic)
    requires
        denom > 0,
        a@ == numer / denom,
        b@ == numer / denom,
    ensures
        a == b,
{
}

/// A clock of the default kind and one built by [`Monotonic::new`] are the
/// same clock: every such clock is.
pub proof fn lemma_default_is_new(a: Monotonic, b: Monotonic)
    ensures
        a == b,
{
}

} // verus!
