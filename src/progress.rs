use vstd::prelude::*;

verus! {

/// The clock of a progress line, broken into the units it is shown in.
#[derive(Clone, Copy, Debug, PartialEq, Eq, Structural)]
pub enum Clock {
    HoursMinutesSeconds(u64, u64, u64),
    MinutesSeconds(u64, u64),
    Seconds(u64),
}

/// The seconds a progress line shows: those left of the duration (never below
/// zero) or, without a duration, those elapsed.
pub open spec fn seconds_shown(duration_secs: Option<u64>, elapsed_secs: u64) -> u64 {
    match duration_secs {
        Some(d) => if elapsed_secs <= d {
            (d - elapsed_secs) as u64
        } else {
            0
        },
        None => elapsed_secs,
    }
}

/// Hours appear above an hour, minutes above a minute.
pub open spec fn clock_of(t: u64) -> Clock {
    if t > 3600 {
        Clock::HoursMinutesSeconds(t / 3600, (t % 3600) / 60, t % 60)
    } else if t > 60 {
        Clock::MinutesSeconds(t / 60, t % 60)
    } else {
        Clock::Seconds(t)
    }
}

pub fn clock_reading(duration_secs: Option<u64>, elapsed_secs: u64) -> (r: Clock)
    ensures
        r == clock_of(seconds_shown(duration_secs, elapsed_secs)),
{
    let t = match duration_secs {
        Some(d) => if elapsed_secs <= d {
            d - elapsed_secs
        } else {
            0
        },
        None => elapsed_secs,
    };
    if t > 3600 {
        Clock::HoursMinutesSeconds(t / 3600, (t % 3600) / 60, t % 60)
    } else if t > 60 {
        Clock::MinutesSeconds(t / 60, t % 60)
    } else {
        Clock::Seconds(t)
    }
}

/// How hot a temperature reads on a progress line.
#[derive(Clone, Copy, Debug, PartialEq, Eq, Structural)]
pub enum TemperatureBand {
    Normal,
    Warm,
    Hot,
}

/// Above 80 °C is hot, above 60 °C warm; temperatures are in thousandths of a
/// degree Celsius.
pub fn temperature_band(millidegrees: i64) -> (r: TemperatureBand)
    ensures
        r == (if millidegrees > 80_000 {
            TemperatureBand::Hot
        } else if millidegrees > 60_000 {
            TemperatureBand::Warm
        } else {
            TemperatureBand::Normal
        }),
{
    if millidegrees > 80_000 {
        TemperatureBand::Hot
    } else if millidegrees > 60_000 {
        TemperatureBand::Warm
    } else {
        TemperatureBand::Normal
    }
}

} // verus!
