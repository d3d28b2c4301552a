use vstd::prelude::*;

verus! {

/// Clamps a mathematical integer into the value range of `i64`.
///
/// All duration and timestamp arithmetic in this crate is total: it
/// saturates at the ends of the representable range instead of wrapping
/// or failing.
pub open spec fn sat64(x: int) -> int {
    if x > i64::MAX as int {
        i64::MAX as int
    } else if x < i64::MIN as int {
        i64::MIN as int
    } else {
        x
    }
}

/// Saturating addition on `i64`.
pub(crate) fn sat_add_i64(a: i64, b: i64) -> (r: i64)
    ensures
        r as int == sat64(a + b),
{
    if a >= 0 {
        if b > i64::MAX - a {
            i64::MAX
        } else {
            a + b
        }
    } else {
        if b < i64::MIN - a {
            i64::MIN
        } else {
            a + b
        }
    }
}

/// Saturating subtraction on `i64`.
pub(crate) fn sat_sub_i64(a: i64, b: i64) -> (r: i64)
    ensures
        r as int == sat64(a - b),
{
    if b >= 0 {
        if a < i64::MIN + b {
            i64::MIN
        } else {
            a - b
        }
    } else {
        if a > i64::MAX + b {
            i64::MAX
        } else {
            a - b
        }
    }
}

/// A signed span of time, counted in whole nanoseconds.
///
/// Negative spans are legal: a run with a start offset counts up from a
/// negative time towards zero.
#[derive(Clone, Copy, Debug, PartialEq, Eq, Structural)]
pub struct TimeSpan {
    nanos: i64,
}

impl View for TimeSpan {
    type V = int;

    closed spec fn view(&self) -> int {
        self.nanos as int
    }
}

impl TimeSpan {
    /// The zero span.
    pub fn zero() -> (r: TimeSpan)
        ensures
            r@ == 0,
    {
        TimeSpan { nanos: 0 }
    }

    /// Builds a span from a count of nanoseconds.
    pub fn from_nanos(nanos: i64) -> (r: TimeSpan)
        ensures
            r@ == nanos as int,
    {
        TimeSpan { nanos }
    }

    /// Builds a span from a count of whole seconds, saturating at the ends
    /// of the representable range.
    pub fn from_seconds(seconds: i64) -> (r: TimeSpan)
        ensures
            r@ == sat64(seconds * 1_000_000_000),
    {
        if seconds > 9_223_372_036 {
            proof {
                assert(seconds * 1_000_000_000 > i64::MAX as int) by (nonlinear_arith)
                    requires
                        seconds > 9_223_372_036,
                ;
            }
            TimeSpan { nanos: i64::MAX }
        } else if seconds < -9_223_372_036 {
            proof {
                assert(seconds * 1_000_000_000 < i64::MIN as int) by (nonlinear_arith)
                    requires
                        seconds < -9_223_372_036,
                ;
            }
            TimeSpan { nanos: i64::MIN }
        } else {
            proof {
                assert(seconds * 1_000_000_000 <= i64::MAX as int && seconds * 1_000_000_000
                    >= i64::MIN as int) by (nonlinear_arith)
                    requires
                        -9_223_372_036 <= seconds <= 9_223_372_036,
                ;
            }
            TimeSpan { nanos: seconds * 1_000_000_000 }
        }
    }

    /// The count of nanoseconds in this span.
    pub fn total_nanos(&self) -> (r: i64)
        ensures
            r as int == self@,
    {
        self.nanos
    }

    /// Saturating sum of two spans.
    pub fn plus(self, other: TimeSpan) -> (r: TimeSpan)
        ensures
            r@ == sat64(self@ + other@),
    {
        TimeSpan { nanos: sat_add_i64(self.nanos, other.nanos) }
    }

    /// Saturating difference of two spans.
    pub fn minus(self, other: TimeSpan) -> (r: TimeSpan)
        ensures
            r@ == sat64(self@ - other@),
    {
        TimeSpan { nanos: sat_sub_i64(self.nanos, other.nanos) }
    }

    /// Whether this span is strictly shorter than `other`.
    pub fn lt(&self, other: &TimeSpan) -> (r: bool)
        ensures
            r == (self@ < other@),
    {
        self.nanos < other.nanos
    }

    /// Whether this span is zero or positive.
    pub fn is_non_negative(&self) -> (r: bool)
        ensures
            r == (self@ >= 0),
    {
        self.nanos >= 0
    }
}

/// The two timing methods a run can be measured with.
#[derive(Clone, Copy, Debug, PartialEq, Eq, Structural)]
pub enum TimingMethod {
    /// Wall-clock time, excluding nothing but explicit pauses.
    RealTime,
    /// Time as reported by the game, excluding loading times.
    GameTime,
}

/// The mathematical value of a `Time`: a pair of optional signed
/// nanosecond counts.
pub ghost struct TimeVal {
    pub real: Option<int>,
    pub game: Option<int>,
}

impl TimeVal {
    /// Pairwise saturating sum; an axis is present in the sum only when it
    /// is present in both operands.
    pub open spec fn plus(self, other: TimeVal) -> TimeVal {
        TimeVal {
            real: match (self.real, other.real) {
                (Some(a), Some(b)) => Some(sat64(a + b)),
                _ => None,
            },
            game: match (self.game, other.game) {
                (Some(a), Some(b)) => Some(sat64(a + b)),
                _ => None,
            },
        }
    }

    /// Selects the axis belonging to a timing method.
    pub open spec fn by_method(self, method: TimingMethod) -> Option<int> {
        match method {
            TimingMethod::RealTime => self.real,
            TimingMethod::GameTime => self.game,
        }
    }

    /// The value with both axes absent.
    pub open spec fn empty() -> TimeVal {
        TimeVal { real: None, game: None }
    }
}

/// The view of an optional span: an optional count of nanoseconds.
pub open spec fn span_opt(o: Option<TimeSpan>) -> Option<int> {
    match o {
        Some(s) => Some(s@),
        None => None,
    }
}

/// A point of a run measured under both timing methods; either axis may be
/// absent.
#[derive(Clone, Copy, Debug, PartialEq, Eq, Structural)]
pub struct Time {
    /// The Real Time axis.
    pub real_time: Option<TimeSpan>,
    /// The Game Time axis.
    pub game_time: Option<TimeSpan>,
}

impl View for Time {
    type V = TimeVal;

    open spec fn view(&self) -> TimeVal {
        TimeVal { real: span_opt(self.real_time), game: span_opt(self.game_time) }
    }
}

impl Time {
    /// The time with both axes absent.
    pub fn new() -> (r: Time)
        ensures
            r@ == TimeVal::empty(),
    {
        Time { real_time: None, game_time: None }
    }

    /// Replaces the Real Time axis.
    pub fn with_real_time(self, real_time: Option<TimeSpan>) -> (r: Time)
        ensures
            r@.real == span_opt(real_time),
            r@.game == self@.game,
    {
        Time { real_time, ..self }
    }

    /// Replaces the Game Time axis.
    pub fn with_game_time(self, game_time: Option<TimeSpan>) -> (r: Time)
        ensures
            r@.real == self@.real,
            r@.game == span_opt(game_time),
    {
        Time { game_time, ..self }
    }

    /// Reads the axis belonging to a timing method.
    pub fn by_method(&self, method: TimingMethod) -> (r: Option<TimeSpan>)
        ensures
            span_opt(r) == self@.by_method(method),
    {
        match method {
            TimingMethod::RealTime => self.real_time,
            TimingMethod::GameTime => self.game_time,
        }
    }

    /// Pairwise saturating sum; an axis survives only when present in both
    /// operands.
    pub fn plus(self, other: Time) -> (r: Time)
        ensures
            r@ == self@.plus(other@),
    {
        Time {
            real_time: match (self.real_time, other.real_time) {
                (Some(a), Some(b)) => Some(a.plus(b)),
                _ => None,
            },
            game_time: match (self.game_time, other.game_time) {
                (Some(a), Some(b)) => Some(a.plus(b)),
                _ => None,
            },
        }
    }
}

} // verus!
