//! Times of day as seconds since midnight, and daily windows over them.
use vstd::prelude::*;
use vstd::string::StringExecFns;
use crate::instant::LocalInstant;

verus! {

/// Number of seconds in one day; times of day are taken modulo this.
pub const SECONDS_PER_DAY: u32 = 86400;

/// A point within a day, as a number of seconds since midnight.
#[derive(Clone, Copy, Debug, PartialEq, Eq, Structural)]
pub struct TimeOfDay {
    pub secs: u32,
}

impl TimeOfDay {
    /// A time of day lies within one day.
    pub open spec fn wf(self) -> bool {
        self.secs < SECONDS_PER_DAY
    }

    /// Builds the time `h:m:s`.
    pub fn from_hms(h: u32, m: u32, s: u32) -> (r: TimeOfDay)
        requires
            h < 24,
            m < 60,
            s < 60,
        ensures
            r.wf(),
            r.secs == h * 3600 + m * 60 + s,
    {
        TimeOfDay { secs: h * 3600 + m * 60 + s }
    }

    /// Builds the time that lies `secs` seconds after midnight.
    pub fn from_num_seconds_from_midnight(secs: u32) -> (r: TimeOfDay)
        requires
            secs < SECONDS_PER_DAY,
        ensures
            r.wf(),
            r.secs == secs,
    {
        TimeOfDay { secs }
    }

    /// Seconds since midnight.
    pub fn num_seconds_from_midnight(&self) -> (r: u32)
        ensures
            r == self.secs,
    {
        self.secs
    }

    pub fn hour(&self) -> (r: u32)
        ensures
            r == self.secs / 3600,
    {
        self.secs / 3600
    }

    pub fn minute(&self) -> (r: u32)
        ensures
            r == (self.secs % 3600) / 60,
    {
        (self.secs % 3600) / 60
    }

    pub fn second(&self) -> (r: u32)
        ensures
            r == self.secs % 60,
    {
        self.secs % 60
    }
}

/// The character of a decimal digit.
pub open spec fn digit_char(d: int) -> char {
    if d == 0 { '0' }
    else if d == 1 { '1' }
    else if d == 2 { '2' }
    else if d == 3 { '3' }
    else if d == 4 { '4' }
    else if d == 5 { '5' }
    else if d == 6 { '6' }
    else if d == 7 { '7' }
    else if d == 8 { '8' }
    else { '9' }
}

/// A number below 100 written with two digits.
pub open spec fn two_digits(n: int) -> Seq<char> {
    seq![digit_char(n / 10), digit_char(n % 10)]
}

/// A time of day written `HH:MM`.
pub open spec fn hhmm(t: TimeOfDay) -> Seq<char> {
    two_digits((t.secs / 3600) as int) + seq![':'] + two_digits(((t.secs % 3600) / 60) as int)
}

/// The literal that holds the one digit `d`.
fn digit_str(d: u32) -> (r: &'static str)
    requires
        d < 10,
    ensures
        r@ == seq![digit_char(d as int)],
{
    proof {
        reveal_strlit("0");
        reveal_strlit("1");
        reveal_strlit("2");
        reveal_strlit("3");
        reveal_strlit("4");
        reveal_strlit("5");
        reveal_strlit("6");
        reveal_strlit("7");
        reveal_strlit("8");
        reveal_strlit("9");
    }
    if d == 0 { "0" }
    else if d == 1 { "1" }
    else if d == 2 { "2" }
    else if d == 3 { "3" }
    else if d == 4 { "4" }
    else if d == 5 { "5" }
    else if d == 6 { "6" }
    else if d == 7 { "7" }
    else if d == 8 { "8" }
    else { "9" }
}

/// Appends `n` to `out` with two digits.
fn push_two_digits(out: &mut String, n: u32)
    requires
        n < 100,
    ensures
        final(out)@ == old(out)@ + two_digits(n as int),
{
    out.append(digit_str(n / 10));
    out.append(digit_str(n % 10));
    assert(out@ =~= old(out)@ + two_digits(n as int));
}

/// Appends `t` to `out` as `HH:MM`.
fn push_hhmm(out: &mut String, t: TimeOfDay)
    requires
        t.wf(),
    ensures
        final(out)@ == old(out)@ + hhmm(t),
{
    let ghost before = out@;
    push_two_digits(out, t.hour());
    proof {
        reveal_strlit(":");
    }
    out.append(":");
    push_two_digits(out, t.minute());
    assert(out@ =~= before + hhmm(t));
}

/// A daily window from `start` to `end`. When `start < end` it lies within
/// one day; otherwise it wraps past midnight. Both ends are outside the window.
/// A window whose two ends are equal wraps: it holds every time of day but
/// that one.
#[derive(Clone, Copy, Debug, PartialEq, Eq, Structural)]
pub struct TimeRange {
    pub start: TimeOfDay,
    pub end: TimeOfDay,
}

impl TimeRange {
    /// Both ends are times of day.
    pub open spec fn wf(self) -> bool {
        self.start.wf() && self.end.wf()
    }

    /// Whether the window lies within one day.
    pub open spec fn same_day(self) -> bool {
        self.start.secs < self.end.secs
    }

    /// Membership of `t`, with both ends excluded.
    pub open spec fn spec_includes(self, t: TimeOfDay) -> bool {
        if self.same_day() {
            self.start.secs < t.secs && t.secs < self.end.secs
        } else {
            self.start.secs < t.secs || t.secs < self.end.secs
        }
    }

    /// The end that comes next going forward from `t`.
    pub open spec fn spec_next_boundary(self, t: TimeOfDay) -> TimeOfDay {
        if self.spec_includes(t) {
            self.end
        } else {
            self.start
        }
    }

    /// Seconds from `t` forward to the next end, through midnight if need be.
    pub open spec fn spec_distance(self, t: TimeOfDay) -> int {
        let d = self.spec_next_boundary(t).secs - t.secs;
        if d < 0 {
            d + SECONDS_PER_DAY
        } else {
            d
        }
    }

    /// The window from `start_h:start_m` to `end_h:end_m`.
    pub fn from_hmhm(start_h: u32, start_m: u32, end_h: u32, end_m: u32) -> (r: TimeRange)
        requires
            start_h < 24,
            start_m < 60,
            end_h < 24,
            end_m < 60,
        ensures
            r.wf(),
            r.start.secs == start_h * 3600 + start_m * 60,
            r.end.secs == end_h * 3600 + end_m * 60,
    {
        TimeRange { start: TimeOfDay::from_hms(start_h, start_m, 0), end: TimeOfDay::from_hms(end_h, end_m, 0) }
    }

    /// The window from `start` to `end`.
    pub fn new(start: TimeOfDay, end: TimeOfDay) -> (r: TimeRange)
        ensures
            r.start == start,
            r.end == end,
    {
        TimeRange { start, end }
    }

    /// Whether `time` lies strictly inside the window.
    pub fn includes(self, time: TimeOfDay) -> (r: bool)
        ensures
            r == self.spec_includes(time),
            self.same_day() ==> (r == (time.secs > self.start.secs && time.secs < self.end.secs)),
            !self.same_day() ==> (r == (time.secs > self.start.secs || time.secs < self.end.secs)),
    {
        let same_day = self.start.secs < self.end.secs;
        if same_day {
            time.secs > self.start.secs && time.secs < self.end.secs
        } else {
            time.secs > self.start.secs || time.secs < self.end.secs
        }
    }

    /// The end of the window that comes next going forward from `time`:
    /// `end` while inside, `start` otherwise.
    pub fn next_boundary_from(self, time: TimeOfDay) -> (r: TimeOfDay)
        ensures
            r == self.spec_next_boundary(time),
            r == if self.spec_includes(time) { self.end } else { self.start },
    {
        if self.includes(time) {
            self.end
        } else {
            self.start
        }
    }

    /// Seconds from `time` forward to the next end of the window, never
    /// negative: a day is added when that end lies after midnight.
    pub fn duration_until_boundary_from(self, time: TimeOfDay) -> (r: u32)
        requires
            self.wf(),
            time.wf(),
        ensures
            r == self.spec_distance(time),
            r < SECONDS_PER_DAY,
            (time.secs + r) % (SECONDS_PER_DAY as int) == self.spec_next_boundary(time).secs,
    {
        let next = self.next_boundary_from(time);
        if next.secs < time.secs {
            next.secs + SECONDS_PER_DAY - time.secs
        } else {
            next.secs - time.secs
        }
    }

    /// Whether more time passed from `since` to `until` than separates the
    /// local time of day at `since` from the next end of the window.
    pub open spec fn spec_crossed(self, since: LocalInstant, until: LocalInstant) -> bool {
        until.timestamp - since.timestamp > self.spec_distance(since.spec_time())
    }

    /// Whether an end of the window was passed between `since` and `until`.
    /// Reaching an end exactly is not passing it, and an `until` that does
    /// not lie after `since` never passes one.
    pub fn did_cross_boundary(self, since: LocalInstant, until: LocalInstant) -> (r: bool)
        requires
            self.wf(),
        ensures
            r == self.spec_crossed(since, until),
            until.timestamp <= since.timestamp ==> !r,
    {
        let elapsed: i128 = until.timestamp as i128 - since.timestamp as i128;
        let distance: u32 = self.duration_until_boundary_from(since.time());
        elapsed > distance as i128
    }

    /// The window written `HH:MM-HH:MM`.
    pub open spec fn spec_display(self) -> Seq<char> {
        hhmm(self.start) + seq!['-'] + hhmm(self.end)
    }

    /// The window written `HH:MM-HH:MM`, seconds left out.
    pub fn display(&self) -> (r: String)
        requires
            self.wf(),
        ensures
            r@ == self.spec_display(),
    {
        let mut out = String::new();
        push_hhmm(&mut out, self.start);
        proof {
            reveal_strlit("-");
        }
        out.append("-");
        push_hhmm(&mut out, self.end);
        assert(out@ =~= self.spec_display());
        out
    }

    /// The same distance as `duration_until_boundary_from`, as a time of day.
    pub fn time_until_boundary_from(self, time: TimeOfDay) -> (r: TimeOfDay)
        requires
            self.wf(),
            time.wf(),
        ensures
            r.wf(),
            r.secs == self.spec_distance(time),
    {
        TimeOfDay { secs: self.duration_until_boundary_from(time) }
    }
}

/// Neither end of a window lies inside it.
pub proof fn lemma_ends_excluded(w: TimeRange)
    ensures
        !w.spec_includes(w.start),
        !w.spec_includes(w.end),
{
}

/// The distance to the next end is never negative, and going that far
/// forward from `t`, modulo a day, lands on that end.
pub proof fn lemma_distance_reaches_next_boundary(w: TimeRange, t: TimeOfDay)
    requires
        w.wf(),
        t.wf(),
    ensures
        0 <= w.spec_distance(t) < SECONDS_PER_DAY,
        (t.secs + w.spec_distance(t)) % (SECONDS_PER_DAY as int) == w.spec_next_boundary(t).secs,
{
}

/// No end is ever passed going backwards in time, or standing still.
pub proof fn lemma_no_crossing_backwards(w: TimeRange, since: LocalInstant, until: LocalInstant)
    requires
        w.wf(),
        until.timestamp <= since.timestamp,
    ensures
        !w.spec_crossed(since, until),
{
}

} // verus!
