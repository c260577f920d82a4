//! Adapters used with `override_from`/`override_via`: the override holds a
//! number of seconds, minutes or hours and the adapter turns it into the
//! field's [`Duration`].

use vstd::prelude::*;
use core::time::Duration;
use vstd::std_specs::convert::FromSpec;
use vstd::std_specs::convert::FromSpecImpl;

verus! {

// !- Calls into std

/// The duration `Duration::from_secs(secs)` gives: `secs` whole seconds.
pub uninterp spec fn secs_duration(secs: u64) -> Duration;

/// Calls `Duration::from_secs`. Assumed: the result is `secs_duration(secs)`.
#[verifier::external_body]
fn duration_from_secs(secs: u64) -> (r: Duration)
    ensures
        r == secs_duration(secs),
{
    Duration::from_secs(secs)
}

/// Calls `Duration::from_mins`, which panics when the number of seconds
/// overflows a `u64`. Assumed: for the minutes admitted, it is the duration
/// of as many times 60 seconds, as std documents it.
#[verifier::external_body]
fn duration_from_mins(mins: u64) -> (r: Duration)
    requires
        mins <= u64::MAX / 60,
    ensures
        r == secs_duration((mins * 60) as u64),
{
    Duration::from_mins(mins)
}

/// Calls `Duration::from_hours`, which panics when the number of seconds
/// overflows a `u64`. Assumed: for the hours admitted, it is the duration
/// of as many times 3600 seconds, as std documents it.
#[verifier::external_body]
fn duration_from_hours(hours: u64) -> (r: Duration)
    requires
        hours <= u64::MAX / 3600,
    ensures
        r == secs_duration((hours * 3600) as u64),
{
    Duration::from_hours(hours)
}

// !- Seconds

/// Maps a [`Duration`] from run-time config, given as a number of seconds.
pub struct SecondsAdapter(pub u64);

impl From<u64> for SecondsAdapter {
    fn from(val: u64) -> (r: Self) {
        SecondsAdapter(val)
    }
}

impl FromSpecImpl<u64> for SecondsAdapter {
    open spec fn obeys_from_spec() -> bool {
        true
    }

    open spec fn from_spec(v: u64) -> Self {
        SecondsAdapter(v)
    }
}

impl From<SecondsAdapter> for Duration {
    /// The number of seconds held, as a duration.
    fn from(adapter: SecondsAdapter) -> (r: Duration) {
        duration_from_secs(adapter.0)
    }
}

impl FromSpecImpl<SecondsAdapter> for Duration {
    open spec fn obeys_from_spec() -> bool {
        true
    }

    open spec fn from_spec(v: SecondsAdapter) -> Duration {
        secs_duration(v.0)
    }
}

// !- Minutes

/// Maps a [`Duration`] from run-time config, given as a number of minutes.
pub struct MinutesAdapter(pub u64);

impl From<u64> for MinutesAdapter {
    fn from(val: u64) -> (r: Self) {
        MinutesAdapter(val)
    }
}

impl FromSpecImpl<u64> for MinutesAdapter {
    open spec fn obeys_from_spec() -> bool {
        true
    }

    open spec fn from_spec(v: u64) -> Self {
        MinutesAdapter(v)
    }
}

/// The number of seconds a number of minutes stands for, or the largest
/// `u64` when that does not fit.
pub open spec fn minutes_secs(mins: u64) -> u64 {
    if mins <= u64::MAX / 60 {
        (mins * 60) as u64
    } else {
        u64::MAX
    }
}

impl From<MinutesAdapter> for Duration {
    /// The number of minutes held, as a duration. Beyond what a `u64` of
    /// seconds holds, where `Duration::from_mins` would panic, this gives
    /// `u64::MAX` seconds.
    fn from(adapter: MinutesAdapter) -> (r: Duration) {
        if adapter.0 <= u64::MAX / 60 {
            duration_from_mins(adapter.0)
        } else {
            duration_from_secs(u64::MAX)
        }
    }
}

impl FromSpecImpl<MinutesAdapter> for Duration {
    open spec fn obeys_from_spec() -> bool {
        true
    }

    open spec fn from_spec(v: MinutesAdapter) -> Duration {
        secs_duration(minutes_secs(v.0))
    }
}

// !- Hours

/// Maps a [`Duration`] from run-time config, given as a number of hours.
pub struct HoursAdapter(pub u64);

impl From<u64> for HoursAdapter {
    fn from(val: u64) -> (r: Self) {
        HoursAdapter(val)
    }
}

impl FromSpecImpl<u64> for HoursAdapter {
    open spec fn obeys_from_spec() -> bool {
        true
    }

    open spec fn from_spec(v: u64) -> Self {
        HoursAdapter(v)
    }
}

/// The number of seconds a number of hours stands for, or the largest
/// `u64` when that does not fit.
pub open spec fn hours_secs(hours: u64) -> u64 {
    if hours <= u64::MAX / 3600 {
        (hours * 3600) as u64
    } else {
        u64::MAX
    }
}

impl From<HoursAdapter> for Duration {
    /// The number of hours held, as a duration. Beyond what a `u64` of
    /// seconds holds, where `Duration::from_hours` would panic, this gives
    /// `u64::MAX` seconds.
    fn from(adapter: HoursAdapter) -> (r: Duration) {
        if adapter.0 <= u64::MAX / 3600 {
            duration_from_hours(adapter.0)
        } else {
            duration_from_secs(u64::MAX)
        }
    }
}

impl FromSpecImpl<HoursAdapter> for Duration {
    open spec fn obeys_from_spec() -> bool {
        true
    }

    open spec fn from_spec(v: HoursAdapter) -> Duration {
        secs_duration(hours_secs(v.0))
    }
}

/// The adapters agree with one another: a minute is 60 seconds and an hour
/// 3600, as long as the seconds fit in a `u64`.
pub proof fn law_adapters_agree(n: u64)
    ensures
        n <= u64::MAX / 60 ==> <Duration as FromSpec<MinutesAdapter>>::from_spec(MinutesAdapter(n))
            == <Duration as FromSpec<SecondsAdapter>>::from_spec(SecondsAdapter((n * 60) as u64)),
        n <= u64::MAX / 3600 ==> <Duration as FromSpec<HoursAdapter>>::from_spec(HoursAdapter(n))
            == <Duration as FromSpec<MinutesAdapter>>::from_spec(MinutesAdapter((n * 60) as u64)),
{
}

} // verus!
