//! The two enumerations of a haptic request, their wire codes, and the
//! request that the native feedback performer is handed.

use crate::{supports_haptics, Platform};
use vstd::prelude::*;

verus! {

/// Conversion from a raw wire value; `None` where the value names nothing.
pub trait FromRaw<T> {
    /// What `from_raw` returns for `value`.
    spec fn spec_from_raw(value: T) -> Option<Self> where Self: Sized;

    fn from_raw(value: T) -> (r: Option<Self>) where Self: Sized
        ensures
            r == Self::spec_from_raw(value),
    ;
}

/// The kind of feedback the trackpad gives.
#[derive(Clone, Copy, Debug, PartialEq, Eq, Structural)]
pub enum HapticFeedbackPattern {
    Alignment,
    LevelChange,
    Generic,
}

/// When, relative to the call, the feedback is given.
#[derive(Clone, Copy, Debug, PartialEq, Eq, Structural)]
pub enum HapticFeedbackPerformanceTime {
    Default,
    Now,
    DrawCompleted,
}

impl HapticFeedbackPattern {
    /// The wire code of the pattern.
    pub open spec fn code(self) -> u64 {
        match self {
            HapticFeedbackPattern::Alignment => 0,
            HapticFeedbackPattern::LevelChange => 1,
            HapticFeedbackPattern::Generic => 2,
        }
    }

    /// The wire code of the pattern: the one value that `from_raw` maps
    /// back to it.
    pub fn to_raw(self) -> (r: u64)
        ensures
            r == self.code(),
            Self::spec_from_raw(r) == Some(self),
    {
        match self {
            HapticFeedbackPattern::Alignment => 0,
            HapticFeedbackPattern::LevelChange => 1,
            HapticFeedbackPattern::Generic => 2,
        }
    }
}

impl FromRaw<u64> for HapticFeedbackPattern {
    open spec fn spec_from_raw(value: u64) -> Option<Self> {
        if value == 0 {
            Some(HapticFeedbackPattern::Alignment)
        } else if value == 1 {
            Some(HapticFeedbackPattern::LevelChange)
        } else if value == 2 {
            Some(HapticFeedbackPattern::Generic)
        } else {
            None
        }
    }

    /// An unknown code is never replaced by a default pattern.
    fn from_raw(value: u64) -> (r: Option<Self>)
        ensures
            r is Some <==> value <= 2,
    {
        match value {
            0 => Some(HapticFeedbackPattern::Alignment),
            1 => Some(HapticFeedbackPattern::LevelChange),
            2 => Some(HapticFeedbackPattern::Generic),
            _ => None,
        }
    }
}

impl HapticFeedbackPerformanceTime {
    /// The wire code of the performance time.
    pub open spec fn code(self) -> u64 {
        match self {
            HapticFeedbackPerformanceTime::Default => 0,
            HapticFeedbackPerformanceTime::Now => 1,
            HapticFeedbackPerformanceTime::DrawCompleted => 2,
        }
    }

    /// The wire code of the performance time: the one value that
    /// `from_raw` maps back to it.
    pub fn to_raw(self) -> (r: u64)
        ensures
            r == self.code(),
            Self::spec_from_raw(r) == Some(self),
    {
        match self {
            HapticFeedbackPerformanceTime::Default => 0,
            HapticFeedbackPerformanceTime::Now => 1,
            HapticFeedbackPerformanceTime::DrawCompleted => 2,
        }
    }
}

impl FromRaw<u64> for HapticFeedbackPerformanceTime {
    open spec fn spec_from_raw(value: u64) -> Option<Self> {
        if value == 0 {
            Some(HapticFeedbackPerformanceTime::Default)
        } else if value == 1 {
            Some(HapticFeedbackPerformanceTime::Now)
        } else if value == 2 {
            Some(HapticFeedbackPerformanceTime::DrawCompleted)
        } else {
            None
        }
    }

    /// An unknown code is never replaced by a default time.
    fn from_raw(value: u64) -> (r: Option<Self>)
        ensures
            r is Some <==> value <= 2,
    {
        match value {
            0 => Some(HapticFeedbackPerformanceTime::Default),
            1 => Some(HapticFeedbackPerformanceTime::Now),
            2 => Some(HapticFeedbackPerformanceTime::DrawCompleted),
            _ => None,
        }
    }
}

/// Mapping a pattern to its code and back gives the pattern again, and
/// mapping a code to a pattern and back gives the code again: the codes
/// `0`, `1` and `2` and the three patterns are in one-to-one
/// correspondence.
pub proof fn lemma_pattern_round_trip(pattern: HapticFeedbackPattern, code: u64)
    ensures
        HapticFeedbackPattern::spec_from_raw(pattern.code()) == Some(pattern),
        HapticFeedbackPattern::spec_from_raw(code) matches Some(p) ==> p.code() == code,
        HapticFeedbackPattern::spec_from_raw(code) is None <==> code > 2,
{
}

/// Mapping a performance time to its code and back gives the time again,
/// and mapping a code to a time and back gives the code again.
pub proof fn lemma_performance_time_round_trip(time: HapticFeedbackPerformanceTime, code: u64)
    ensures
        HapticFeedbackPerformanceTime::spec_from_raw(time.code()) == Some(time),
        HapticFeedbackPerformanceTime::spec_from_raw(code) matches Some(t) ==> t.code() == code,
        HapticFeedbackPerformanceTime::spec_from_raw(code) is None <==> code > 2,
{
}

/// One call of the native feedback performer: what the host is asked to
/// do, once, after a command was accepted.
#[derive(Clone, Copy, Debug, PartialEq, Eq, Structural)]
pub struct HapticRequest {
    pub pattern: HapticFeedbackPattern,
    pub performance_time: HapticFeedbackPerformanceTime,
}

/// The platform cannot give haptic feedback.
#[derive(Clone, Copy, Debug, PartialEq, Eq, Structural)]
pub struct PlatformError;

/// The time at which feedback is given where the caller names none.
pub open spec fn time_or_now(
    performance_time: Option<HapticFeedbackPerformanceTime>,
) -> HapticFeedbackPerformanceTime {
    match performance_time {
        Some(time) => time,
        None => HapticFeedbackPerformanceTime::Now,
    }
}

/// What `perform` answers.
pub open spec fn spec_perform(
    platform: Platform,
    pattern: HapticFeedbackPattern,
    performance_time: Option<HapticFeedbackPerformanceTime>,
) -> Result<HapticRequest, PlatformError> {
    if supports_haptics(platform) {
        Ok(HapticRequest { pattern, performance_time: time_or_now(performance_time) })
    } else {
        Err(PlatformError)
    }
}

/// The request to hand to the native performer for `pattern`, at
/// `performance_time` or, where that is absent, at once. A platform
/// without haptic feedback gets no request.
pub fn perform(
    platform: Platform,
    pattern: HapticFeedbackPattern,
    performance_time: Option<HapticFeedbackPerformanceTime>,
) -> (r: Result<HapticRequest, PlatformError>)
    ensures
        r == spec_perform(platform, pattern, performance_time),
{
    if !crate::is_supported(platform) {
        return Err(PlatformError);
    }
    let performance_time = match performance_time {
        Some(time) => time,
        None => HapticFeedbackPerformanceTime::Now,
    };
    Ok(HapticRequest { pattern, performance_time })
}

} // verus!
