//! The server clock: the current NT time, the monotonic counter and the two
//! sorted lists of pending timers.
use vstd::prelude::*;
use core::time::Duration;
use crate::protocol::{AbsoluteTime, Timeout, TICKS_PER_SECOND, TICKS_1601_TO_1970};

verus! {

/// The duration that `Duration::new(secs, nanos)` creates.
pub uninterp spec fn duration_of(secs: u64, nanos: u32) -> Duration;

/// Makes the duration of `secs` seconds and `nanos` nanoseconds with
/// `core::time::Duration::new`. With `nanos` below one second nothing carries
/// into the seconds, so the call cannot panic; the duration depends on the two
/// arguments alone. `Duration` is opaque to the verifier, so its seconds and
/// nanoseconds are known only through [`duration_of`].
#[verifier::external_body]
fn duration_new(secs: u64, nanos: u32) -> (d: Duration)
    requires
        nanos < 1_000_000_000,
    ensures
        d == duration_of(secs, nanos),
{
    Duration::new(secs, nanos)
}

/// A timer registered with a [`Clock`].
#[derive(Copy, Clone)]
pub struct TimeoutUser<C> {
    /// Entry in sorted timeout list.
    entry: isize,
    /// Timeout expiry
    when: AbsoluteTime,
    /// Callback function.
    callback: C,
}

impl<C> TimeoutUser<C> {
    /// The position recorded when the timer was added.
    pub closed spec fn entry_index(self) -> int {
        self.entry as int
    }

    /// The absolute expiry: positive for a wall-clock deadline, otherwise the
    /// negated monotonic deadline.
    pub closed spec fn expiry(self) -> i64 {
        self.when.0
    }

    /// The callback to run on expiry.
    pub closed spec fn action(self) -> C {
        self.callback
    }
}

/// The deadline of a timer on the time line of its list: the wall-clock
/// deadline for the absolute list, the monotonic deadline for the relative
/// list.
pub open spec fn deadline<C>(u: TimeoutUser<C>, absolute: bool) -> int {
    if absolute {
        u.expiry() as int
    } else {
        -(u.expiry() as int)
    }
}

/// `i` is the first position of `s` whose deadline is not before `w`
/// (`s.len()` where there is none).
pub open spec fn is_split<C>(s: Seq<TimeoutUser<C>>, absolute: bool, w: int, i: int) -> bool {
    &&& 0 <= i <= s.len()
    &&& forall|k: int| 0 <= k < i ==> deadline(#[trigger] s[k], absolute) < w
    &&& i < s.len() ==> deadline(s[i], absolute) >= w
}

/// The first position of `s` whose deadline is not before `w`.
pub open spec fn split_index<C>(s: Seq<TimeoutUser<C>>, absolute: bool, w: int) -> int {
    choose|i: int| is_split(s, absolute, w, i)
}

/// The deadlines of `s` never decrease from front to back.
pub open spec fn sorted_by_deadline<C>(s: Seq<TimeoutUser<C>>, absolute: bool) -> bool {
    forall|i: int, j: int|
        0 <= i <= j < s.len() ==> #[trigger] deadline(s[i], absolute) <= #[trigger] deadline(
            s[j],
            absolute,
        )
}

/// The callbacks of a sequence of timers, in order.
pub open spec fn callbacks<C>(s: Seq<TimeoutUser<C>>) -> Seq<C> {
    s.map_values(|u: TimeoutUser<C>| u.action())
}

/// The absolute time that a timeout stands for: a positive timeout is a
/// wall-clock deadline; any other is relative to the monotonic counter.
pub open spec fn abstime_of(monotonic: i64, timeout: i64) -> int {
    if timeout > 0 {
        timeout as int
    } else {
        timeout - monotonic
    }
}

/// The timeout that an absolute time stands for: a relative deadline that
/// has already passed becomes `0`.
pub open spec fn timeout_of(monotonic: i64, abstime: i64) -> int {
    if abstime > 0 {
        abstime as int
    } else if -abstime < monotonic {
        0
    } else {
        abstime + monotonic
    }
}

/// The ticks until the front timer of a list expires, `i64::MAX` for an
/// empty list.
pub open spec fn front_wait<C>(s: Seq<TimeoutUser<C>>, absolute: bool, now: i64) -> int {
    if s.len() == 0 {
        i64::MAX as int
    } else if deadline(s[0], absolute) - now < 0 {
        0
    } else {
        deadline(s[0], absolute) - now
    }
}

/// The `Duration` that a wait of `ticks` 100ns units is reported as: none
/// for `i64::MAX`, 100ns for `0`.
pub open spec fn wait_duration(ticks: int) -> Option<Duration> {
    if ticks == i64::MAX {
        None
    } else if ticks == 0 {
        Some(duration_of(0, 100))
    } else {
        Some(
            duration_of(
                (ticks / TICKS_PER_SECOND as int) as u64,
                ((ticks % TICKS_PER_SECOND as int) * 100) as u32,
            ),
        )
    }
}

/// The abstract state of a [`Clock`].
pub struct ClockState<C> {
    /// Timers with a wall-clock deadline, earliest first.
    pub abs: Seq<TimeoutUser<C>>,
    /// Timers with a monotonic deadline, earliest first.
    pub rel: Seq<TimeoutUser<C>>,
    /// The current NT time.
    pub current_time: i64,
    /// The monotonic counter.
    pub monotonic_time: i64,
}

impl<C> ClockState<C> {
    /// The clock's invariant: both lists are sorted by deadline, the
    /// absolute list holds positive expiries, the relative list holds
    /// expiries in `(i64::MIN, 0]`.
    pub open spec fn wf(self) -> bool {
        &&& forall|i: int| 0 <= i < self.abs.len() ==> (#[trigger] self.abs[i]).expiry() > 0
        &&& forall|i: int|
            0 <= i < self.rel.len() ==> i64::MIN < (#[trigger] self.rel[i]).expiry() <= 0
        &&& sorted_by_deadline(self.abs, true)
        &&& sorted_by_deadline(self.rel, false)
    }

    /// The ticks until the next pending timer expires (`i64::MAX` if none).
    pub open spec fn pending_wait(self) -> int {
        let a = front_wait(self.abs, true, self.current_time);
        let r = front_wait(self.rel, false, self.monotonic_time);
        if a <= r {
            a
        } else {
            r
        }
    }
}

/// The server clock and its timers.
pub struct Clock<C> {
    /// Sorted absolute timeouts list.
    abs: Vec<TimeoutUser<C>>,
    /// Sorted relative timeouts list.
    rel: Vec<TimeoutUser<C>>,
    current_time: Timeout,
    monotonic_time: Timeout,
}

impl<C> View for Clock<C> {
    type V = ClockState<C>;

    closed spec fn view(&self) -> ClockState<C> {
        ClockState {
            abs: self.abs@,
            rel: self.rel@,
            current_time: self.current_time.0,
            monotonic_time: self.monotonic_time.0,
        }
    }
}

/// No two positions of a sequence are both the first whose deadline is not
/// before `w`.
pub proof fn lemma_split_unique<C>(s: Seq<TimeoutUser<C>>, absolute: bool, w: int, i: int, j: int)
    requires
        is_split(s, absolute, w, i),
        is_split(s, absolute, w, j),
    ensures
        i == j,
{
    if i < j {
        assert(deadline(s[i], absolute) < w);
    } else if j < i {
        assert(deadline(s[j], absolute) < w);
    }
}

/// A position found to be the first whose deadline is not before `w` is the
/// one that [`split_index`] names.
pub proof fn lemma_split_index<C>(s: Seq<TimeoutUser<C>>, absolute: bool, w: int, i: int)
    requires
        is_split(s, absolute, w, i),
    ensures
        split_index(s, absolute, w) == i,
{
    let j = split_index(s, absolute, w);
    lemma_split_unique(s, absolute, w, i, j);
}

/// Inserting a timer at the first position whose deadline is not before its
/// own keeps a sorted list sorted.
pub proof fn lemma_insert_sorted<C>(s: Seq<TimeoutUser<C>>, absolute: bool, u: TimeoutUser<C>, i: int)
    requires
        sorted_by_deadline(s, absolute),
        is_split(s, absolute, deadline(u, absolute), i),
    ensures
        sorted_by_deadline(s.insert(i, u), absolute),
{
    let t = s.insert(i, u);
    assert forall|a: int, b: int| 0 <= a <= b < t.len() implies #[trigger] deadline(t[a], absolute)
        <= #[trigger] deadline(t[b], absolute) by {
        if a < i {
            assert(t[a] == s[a]);
            if b < i {
                assert(t[b] == s[b]);
            } else if b == i {
                assert(t[b] == u);
            } else {
                assert(t[b] == s[b - 1]);
            }
        } else if a == i {
            assert(t[a] == u);
            if b > i {
                assert(t[b] == s[b - 1]);
                assert(deadline(s[i], absolute) <= deadline(s[b - 1], absolute));
            }
        } else {
            assert(t[a] == s[a - 1]);
            assert(t[b] == s[b - 1]);
        }
    }
}

/// Removing a timer keeps a sorted list sorted.
pub proof fn lemma_remove_sorted<C>(s: Seq<TimeoutUser<C>>, absolute: bool, i: int)
    requires
        sorted_by_deadline(s, absolute),
        0 <= i < s.len(),
    ensures
        sorted_by_deadline(s.remove(i), absolute),
{
    let t = s.remove(i);
    assert forall|a: int, b: int| 0 <= a <= b < t.len() implies #[trigger] deadline(t[a], absolute)
        <= #[trigger] deadline(t[b], absolute) by {
        if a < i {
            assert(t[a] == s[a]);
        } else {
            assert(t[a] == s[a + 1]);
        }
        if b < i {
            assert(t[b] == s[b]);
        } else {
            assert(t[b] == s[b + 1]);
        }
    }
}

/// Dropping the front of a sorted list keeps it sorted.
pub proof fn lemma_skip_sorted<C>(s: Seq<TimeoutUser<C>>, absolute: bool, k: int)
    requires
        sorted_by_deadline(s, absolute),
        0 <= k <= s.len(),
    ensures
        sorted_by_deadline(s.skip(k), absolute),
{
    let t = s.skip(k);
    assert forall|a: int, b: int| 0 <= a <= b < t.len() implies #[trigger] deadline(t[a], absolute)
        <= #[trigger] deadline(t[b], absolute) by {
        assert(t[a] == s[a + k]);
        assert(t[b] == s[b + k]);
    }
}

impl<C: Copy> Clock<C> {
    /// The clock's invariant.
    pub open spec fn wf(&self) -> bool {
        self@.wf()
    }

    /// Whether a timer's deadline lies before `w` (or at it, when `inclusive`).
    fn goes_before(u: &TimeoutUser<C>, absolute: bool, w: i64, inclusive: bool) -> (b: bool)
        requires
            u.expiry() > i64::MIN,
        ensures
            b == (deadline(*u, absolute) < (if inclusive { w + 1 } else { w as int })),
    {
        let d = if absolute {
            u.when.0
        } else {
            -u.when.0
        };
        if inclusive {
            d <= w
        } else {
            d < w
        }
    }

    /// Finds the first position of `list` whose deadline is not before `w`
    /// (not before or at `w`, when `inclusive`).
    fn find_split(list: &Vec<TimeoutUser<C>>, absolute: bool, w: i64, inclusive: bool) -> (i:
        usize)
        requires
            forall|k: int| 0 <= k < list@.len() ==> (#[trigger] list@[k]).expiry() > i64::MIN,
        ensures
            i == split_index(list@, absolute, if inclusive { w + 1 } else { w as int }),
            is_split(list@, absolute, if inclusive { w + 1 } else { w as int }, i as int),
    {
        let ghost bound: int = if inclusive { w + 1 } else { w as int };
        let mut i: usize = 0;
        while i < list.len() && Self::goes_before(&list[i], absolute, w, inclusive)
            invariant
                0 <= i <= list@.len(),
                bound == (if inclusive { w + 1 } else { w as int }),
                forall|k: int| 0 <= k < list@.len() ==> (#[trigger] list@[k]).expiry() > i64::MIN,
                forall|k: int| 0 <= k < i ==> deadline(#[trigger] list@[k], absolute) < bound,
            decreases list@.len() - i,
        {
            i = i + 1;
        }
        proof {
            lemma_split_index(list@, absolute, bound, i as int);
        }
        i
    }
}

impl<C> Default for Clock<C> {
    /// A clock at time zero with no timers.
    fn default() -> (c: Self)
        ensures
            c@.abs.len() == 0,
            c@.rel.len() == 0,
            c@.current_time == 0,
            c@.monotonic_time == 0,
            c@.wf(),
    {
        Clock { abs: Vec::new(), rel: Vec::new(), current_time: Timeout(0), monotonic_time: Timeout(0) }
    }
}

impl<C: Copy> Clock<C> {
    /// Sets the current time from a Unix wall-clock reading (`tv_sec`
    /// seconds and `tv_usec` microseconds since 1970) and the monotonic
    /// counter.
    pub fn set_current_time(&mut self, tv_sec: i64, tv_usec: i64, monotonic: Timeout)
        requires
            old(self).wf(),
            i64::MIN <= tv_sec * TICKS_PER_SECOND <= i64::MAX,
            i64::MIN <= tv_usec * 10 <= i64::MAX,
            i64::MIN <= tv_sec * TICKS_PER_SECOND + tv_usec * 10 <= i64::MAX,
            i64::MIN <= tv_sec * TICKS_PER_SECOND + tv_usec * 10 + TICKS_1601_TO_1970 <= i64::MAX,
        ensures
            final(self).wf(),
            final(self)@.current_time == tv_sec * TICKS_PER_SECOND + tv_usec * 10
                + TICKS_1601_TO_1970,
            final(self)@.monotonic_time == monotonic.0,
            final(self)@.abs == old(self)@.abs,
            final(self)@.rel == old(self)@.rel,
    {
        self.current_time = Timeout(
            tv_sec * Timeout::ticks_per_second().0 + tv_usec * 10
                + Timeout::ticks_1601_to_1970().0,
        );
        self.monotonic_time = monotonic;
    }

    /// The monotonic counter in 100ns units, from a reading of the
    /// continuous host time and the host's timebase `numer / denom`.
    pub fn monotonic_counter(continuous_time: u64, numer: u32, denom: u32) -> (t: Timeout)
        requires
            denom != 0,
            continuous_time * numer <= u64::MAX,
        ensures
            t.0 == continuous_time * numer / (denom as int) / 100,
            t.0 >= 0,
    {
        let time = continuous_time * numer as u64 / denom as u64 / 100;
        assert(time <= u64::MAX / 100) by (nonlinear_arith)
            requires
                time == continuous_time * numer / (denom as int) / 100,
                denom >= 1,
                continuous_time * numer <= u64::MAX,
        {
            assert(continuous_time * numer / (denom as int) <= continuous_time * numer);
        }
        Timeout(time as i64)
    }

    /// Converts a timeout into an absolute time.
    pub fn timeout_to_abstime(&self, timeout: Timeout) -> (t: AbsoluteTime)
        requires
            timeout.0 > 0 || i64::MIN <= timeout.0 - self@.monotonic_time <= i64::MAX,
        ensures
            t.0 == abstime_of(self@.monotonic_time, timeout.0),
    {
        if timeout.0 > 0 {
            AbsoluteTime(timeout.0)
        } else {
            AbsoluteTime(timeout.0 - self.monotonic_time.0)
        }
    }

    /// Converts an absolute time back into a timeout.
    pub fn abstime_to_timeout(&self, abstime: AbsoluteTime) -> (t: Timeout)
        requires
            abstime.0 > 0 || (abstime.0 > i64::MIN && (-abstime.0 < self@.monotonic_time
                || i64::MIN <= abstime.0 + self@.monotonic_time <= i64::MAX)),
        ensures
            t.0 == timeout_of(self@.monotonic_time, abstime.0),
    {
        if abstime.0 > 0 {
            Timeout(abstime.0)
        } else {
            if -abstime.0 < self.monotonic_time.0 {
                Timeout(0)
            } else {
                Timeout(abstime.0 + self.monotonic_time.0)
            }
        }
    }

    /// Registers a timer that runs `callback` when `timeout` expires. A
    /// positive `timeout` is a wall-clock deadline, any other is relative to the
    /// monotonic counter. The timer goes into its list before the first timer
    /// whose deadline is not earlier; it records that position, or `0` when
    /// it went to the end.
    pub fn add(&mut self, timeout: Timeout, callback: C) -> (user: TimeoutUser<C>)
        requires
            old(self).wf(),
            timeout.0 > 0 || i64::MIN < timeout.0 - old(self)@.monotonic_time <= i64::MAX,
        ensures
            final(self).wf(),
            final(self)@.current_time == old(self)@.current_time,
            final(self)@.monotonic_time == old(self)@.monotonic_time,
            user.expiry() == abstime_of(old(self)@.monotonic_time, timeout.0),
            user.action() == callback,
            user.expiry() > 0 ==> {
                let i = split_index(old(self)@.abs, true, deadline(user, true));
                &&& final(self)@.abs == old(self)@.abs.insert(i, user)
                &&& final(self)@.rel == old(self)@.rel
                &&& user.entry_index() == (if i < old(self)@.abs.len() {
                    i as isize
                } else {
                    0isize
                }) as int
            },
            user.expiry() <= 0 ==> {
                let i = split_index(old(self)@.rel, false, deadline(user, false));
                &&& final(self)@.rel == old(self)@.rel.insert(i, user)
                &&& final(self)@.abs == old(self)@.abs
                &&& user.entry_index() == (if i < old(self)@.rel.len() {
                    i as isize
                } else {
                    0isize
                }) as int
            },
    {
        let mut user = TimeoutUser { entry: 0, when: self.timeout_to_abstime(timeout), callback };
        if user.when.0 > 0 {
            let i = Self::find_split(&self.abs, true, user.when.0, false);
            user.entry = if i < self.abs.len() {
                i as isize
            } else {
                0
            };
            proof {
                lemma_insert_sorted(self.abs@, true, user, i as int);
            }
            self.abs.insert(i, user);
            assert forall|k: int| 0 <= k < self.abs@.len() implies (
            #[trigger] self.abs@[k]).expiry() > 0 by {
                if k > i as int {
                    assert(self.abs@[k] == old(self).abs@[k - 1]);
                }
            }
        } else {
            let i = Self::find_split(&self.rel, false, -user.when.0, false);
            user.entry = if i < self.rel.len() {
                i as isize
            } else {
                0
            };
            proof {
                lemma_insert_sorted(self.rel@, false, user, i as int);
            }
            self.rel.insert(i, user);
            assert forall|k: int| 0 <= k < self.rel@.len() implies i64::MIN < (
            #[trigger] self.rel@[k]).expiry() <= 0 by {
                if k > i as int {
                    assert(self.rel@[k] == old(self).rel@[k - 1]);
                }
            }
        }
        user
    }

    /// Unregisters a timer by the position that it recorded: a positive
    /// entry names a position in the absolute list, a negative one (negated)
    /// a position in the relative list, and `0` names none. `add` records
    /// only non-negative entries, for relative timers too, so the entry of a
    /// relative timer names a position in the absolute list.
    pub fn remove(&mut self, user: TimeoutUser<C>)
        requires
            old(self).wf(),
            user.entry_index() > 0 ==> user.entry_index() < old(self)@.abs.len(),
            user.entry_index() < 0 ==> isize::MIN < user.entry_index() && -user.entry_index()
                < old(self)@.rel.len(),
        ensures
            final(self).wf(),
            final(self)@.current_time == old(self)@.current_time,
            final(self)@.monotonic_time == old(self)@.monotonic_time,
            user.entry_index() > 0 ==> final(self)@.abs == old(self)@.abs.remove(
                user.entry_index(),
            ) && final(self)@.rel == old(self)@.rel,
            user.entry_index() < 0 ==> final(self)@.rel == old(self)@.rel.remove(
                -user.entry_index(),
            ) && final(self)@.abs == old(self)@.abs,
            user.entry_index() == 0 ==> final(self)@ == old(self)@,
    {
        if user.entry > 0 {
            proof {
                lemma_remove_sorted(self.abs@, true, user.entry as int);
            }
            self.abs.remove(user.entry as usize);
            assert forall|k: int| 0 <= k < self.abs@.len() implies (
            #[trigger] self.abs@[k]).expiry() > 0 by {
                if k >= user.entry as int {
                    assert(self.abs@[k] == old(self).abs@[k + 1]);
                }
            }
        } else if user.entry < 0 {
            proof {
                lemma_remove_sorted(self.rel@, false, -user.entry as int);
            }
            self.rel.remove((-user.entry) as usize);
            assert forall|k: int| 0 <= k < self.rel@.len() implies i64::MIN < (
            #[trigger] self.rel@[k]).expiry() <= 0 by {
                if k >= -user.entry as int {
                    assert(self.rel@[k] == old(self).rel@[k + 1]);
                }
            }
        }
    }
}

impl<C: Copy> Clock<C> {
    /// Appends the callbacks of the first `k` timers of `list` to `out`.
    fn push_callbacks(out: &mut Vec<C>, list: &Vec<TimeoutUser<C>>, k: usize)
        requires
            k <= list@.len(),
        ensures
            final(out)@ == old(out)@ + callbacks(list@.take(k as int)),
    {
        let mut i: usize = 0;
        while i < k
            invariant
                0 <= i <= k <= list@.len(),
                out@ == old(out)@ + callbacks(list@.take(i as int)),
            decreases k - i,
        {
            proof {
                assert(list@.take(i + 1) =~= list@.take(i as int).push(list@[i as int]));
                assert(callbacks(list@.take(i + 1)) =~= callbacks(list@.take(i as int)).push(
                    list@[i as int].action(),
                ));
            }
            out.push(list[i].callback);
            i = i + 1;
        }
        proof {
            assert(old(out)@ + callbacks(list@.take(i as int)) =~= out@);
        }
    }

    /// Whether the wait until the front timers can be computed without
    /// overflow: what [`Clock::next_timeout`] needs besides the invariant.
    pub fn wait_fits(&self) -> (b: bool)
        requires
            self.wf(),
        ensures
            b == ((self@.current_time >= 0 || self@.abs.len() == 0 || self@.abs[0].expiry()
                - self@.current_time <= i64::MAX) && (self@.monotonic_time >= 0
                || self@.rel.len() == 0 || -self@.rel[0].expiry() - self@.monotonic_time
                <= i64::MAX)),
    {
        let abs_fits = self.current_time.0 >= 0 || self.abs.len() == 0
            || self.abs[0].when.0 <= i64::MAX + self.current_time.0;
        let rel_fits = self.monotonic_time.0 >= 0 || self.rel.len() == 0
            || -self.rel[0].when.0 <= i64::MAX + self.monotonic_time.0;
        abs_fits && rel_fits
    }

    /// Process pending timeouts and return the time until the next timeout, if any.
    ///
    /// The expired timers (a wall-clock deadline at or before the current
    /// time, a monotonic deadline at or before the monotonic counter) leave
    /// their lists; their callbacks are returned, those of the absolute list
    /// first, each list in order, for the caller to run. The wait is reported
    /// as described by [`wait_duration`].
    pub fn next_timeout(&mut self) -> (r: (Vec<C>, Option<Duration>))
        requires
            old(self).wf(),
            old(self)@.current_time >= 0 || old(self)@.abs.len() == 0 || old(self)@.abs[0].expiry()
                - old(self)@.current_time <= i64::MAX,
            old(self)@.monotonic_time >= 0 || old(self)@.rel.len() == 0 || -old(self)@.rel[0].expiry()
                - old(self)@.monotonic_time <= i64::MAX,
        ensures
            final(self).wf(),
            final(self)@.current_time == old(self)@.current_time,
            final(self)@.monotonic_time == old(self)@.monotonic_time,
            ({
                let ka = split_index(old(self)@.abs, true, old(self)@.current_time + 1);
                let kr = split_index(old(self)@.rel, false, old(self)@.monotonic_time + 1);
                &&& final(self)@.abs == old(self)@.abs.skip(ka)
                &&& final(self)@.rel == old(self)@.rel.skip(kr)
                &&& r.0@ == callbacks(old(self)@.abs.take(ka)) + callbacks(
                    old(self)@.rel.take(kr),
                )
            }),
            r.1 == wait_duration(final(self)@.pending_wait()),
            final(self)@.abs.len() > 0 ==> final(self)@.pending_wait() <= final(self)@.abs[0].expiry()
                - final(self)@.current_time,
            final(self)@.rel.len() > 0 ==> final(self)@.pending_wait() <= -final(self)@.rel[0].expiry()
                - final(self)@.monotonic_time,
            final(self)@.pending_wait() == i64::MAX || (final(self)@.abs.len() > 0
                && final(self)@.pending_wait() == final(self)@.abs[0].expiry()
                - final(self)@.current_time) || (final(self)@.rel.len() > 0
                && final(self)@.pending_wait() == -final(self)@.rel[0].expiry()
                - final(self)@.monotonic_time),
            forall|i: int|
                0 <= i < final(self)@.abs.len() ==> (#[trigger] final(self)@.abs[i]).expiry()
                    > final(self)@.current_time,
            forall|i: int|
                0 <= i < final(self)@.rel.len() ==> -(#[trigger] final(self)@.rel[i]).expiry()
                    > final(self)@.monotonic_time,
            r.0@.len() + final(self)@.abs.len() + final(self)@.rel.len() == old(self)@.abs.len()
                + old(self)@.rel.len(),
    {
        let ghost old_abs = self.abs@;
        let ghost old_rel = self.rel@;
        let mut expired: Vec<C> = Vec::new();
        if self.abs.len() == 0 && self.rel.len() == 0 {
            proof {
                lemma_split_index(old_abs, true, self.current_time.0 + 1, 0);
                lemma_split_index(old_rel, false, self.monotonic_time.0 + 1, 0);
                assert(old_abs.skip(0) =~= old_abs);
                assert(old_rel.skip(0) =~= old_rel);
                assert(callbacks(old_abs.take(0)) + callbacks(old_rel.take(0)) =~= expired@);
            }
            return (expired, None);
        }
        // Remove all expired timers from the lists

        let ka = Self::find_split(&self.abs, true, self.current_time.0, true);
        Self::push_callbacks(&mut expired, &self.abs, ka);
        let rest = self.abs.split_off(ka);
        self.abs = rest;
        let kr = Self::find_split(&self.rel, false, self.monotonic_time.0, true);
        Self::push_callbacks(&mut expired, &self.rel, kr);
        let rest = self.rel.split_off(kr);
        self.rel = rest;
        proof {
            assert(self.abs@ =~= old_abs.skip(ka as int));
            assert(self.rel@ =~= old_rel.skip(kr as int));
            lemma_skip_sorted(old_abs, true, ka as int);
            lemma_skip_sorted(old_rel, false, kr as int);
            assert forall|i: int| 0 <= i < self.abs@.len() implies (
            #[trigger] self.abs@[i]).expiry() > self.current_time.0 by {
                assert(self.abs@[i] == old_abs[i + ka]);
                if ka < old_abs.len() {
                    assert(deadline(old_abs[ka as int], true) <= deadline(old_abs[i + ka], true));
                }
            }
            assert forall|i: int| 0 <= i < self.rel@.len() implies -(
            #[trigger] self.rel@[i]).expiry() > self.monotonic_time.0 by {
                assert(self.rel@[i] == old_rel[i + kr]);
                if kr < old_rel.len() {
                    assert(deadline(old_rel[kr as int], false) <= deadline(old_rel[i + kr], false));
                }
            }
            assert forall|i: int| 0 <= i < self.abs@.len() implies (
            #[trigger] self.abs@[i]).expiry() > 0 by {
                assert(self.abs@[i] == old_abs[i + ka]);
            }
            assert forall|i: int| 0 <= i < self.rel@.len() implies i64::MIN < (
            #[trigger] self.rel@[i]).expiry() <= 0 by {
                assert(self.rel@[i] == old_rel[i + kr]);
            }
        }

        // Return the next timeout, if any
        let mut ret: i64 = i64::MAX;
        if self.abs.len() > 0 {
            let d = self.abs[0].when.0 - self.current_time.0;
            let diff = if d < 0 {
                0
            } else {
                d
            };
            if diff < ret {
                ret = diff;
            }
        }
        if self.rel.len() > 0 {
            let d = -self.rel[0].when.0 - self.monotonic_time.0;
            let diff = if d < 0 {
                0
            } else {
                d
            };
            if diff < ret {
                ret = diff;
            }
        }
        assert(ret == self@.pending_wait());
        if ret == i64::MAX {
            return (expired, None);
        }
        if ret == 0 {
            return (expired, Some(duration_new(0, 100)));
        }
        let secs: u64 = (ret / TICKS_PER_SECOND) as u64;
        let nanos: u32 = ((ret % TICKS_PER_SECOND) * 100) as u32;
        (expired, Some(duration_new(secs, nanos)))
    }
}

/// Converting a timeout to an absolute time and back gives the timeout
/// again, unless a relative timeout lies ahead of a negative monotonic
/// counter (then its absolute time is positive).
pub proof fn lemma_timeout_round_trip(monotonic: i64, timeout: i64)
    requires
        timeout > 0 || timeout - monotonic <= 0,
        i64::MIN <= abstime_of(monotonic, timeout),
    ensures
        timeout_of(monotonic, abstime_of(monotonic, timeout) as i64) == timeout,
{
}

/// Converting an absolute time to a timeout and back gives the absolute time
/// again, unless it is a monotonic deadline that has already passed (it
/// then becomes the timeout `0`, due now).
pub proof fn lemma_abstime_round_trip(monotonic: i64, abstime: i64)
    requires
        abstime > 0 || -abstime >= monotonic,
        i64::MIN <= timeout_of(monotonic, abstime),
    ensures
        abstime_of(monotonic, timeout_of(monotonic, abstime) as i64) == abstime,
{
}

/// A monotonic deadline that has already passed converts to the timeout `0`.
pub proof fn lemma_passed_deadline_is_due(monotonic: i64, abstime: i64)
    requires
        abstime <= 0,
        -abstime < monotonic,
    ensures
        timeout_of(monotonic, abstime) == 0,
{
}

/// Once expired timers have been processed, processing again at the same
/// times expires nothing: no callback is due, both lists stay as they are,
/// so the wait reported is the same.
pub proof fn lemma_next_timeout_settles<C>(s: ClockState<C>)
    requires
        s.wf(),
        forall|i: int| 0 <= i < s.abs.len() ==> (#[trigger] s.abs[i]).expiry() > s.current_time,
        forall|i: int|
            0 <= i < s.rel.len() ==> -(#[trigger] s.rel[i]).expiry() > s.monotonic_time,
    ensures
        split_index(s.abs, true, s.current_time + 1) == 0,
        split_index(s.rel, false, s.monotonic_time + 1) == 0,
        s.abs.skip(split_index(s.abs, true, s.current_time + 1)) == s.abs,
        s.rel.skip(split_index(s.rel, false, s.monotonic_time + 1)) == s.rel,
        callbacks(s.abs.take(split_index(s.abs, true, s.current_time + 1))) + callbacks(
            s.rel.take(split_index(s.rel, false, s.monotonic_time + 1)),
        ) == Seq::<C>::empty(),
{
    lemma_split_index(s.abs, true, s.current_time + 1, 0);
    lemma_split_index(s.rel, false, s.monotonic_time + 1, 0);
    assert(s.abs.skip(0) =~= s.abs);
    assert(s.rel.skip(0) =~= s.rel);
    assert(callbacks(s.abs.take(0)) + callbacks(s.rel.take(0)) =~= Seq::<C>::empty());
}

/// Every sequence has a first position whose deadline is not before `w`.
pub proof fn lemma_split_exists<C>(s: Seq<TimeoutUser<C>>, absolute: bool, w: int)
    ensures
        is_split(s, absolute, w, split_index(s, absolute, w)),
    decreases s.len(),
{
    if s.len() == 0 {
        assert(is_split(s, absolute, w, 0));
    } else {
        let t = s.drop_last();
        lemma_split_exists(t, absolute, w);
        let j = split_index(t, absolute, w);
        assert forall|k: int| 0 <= k < t.len() implies #[trigger] s[k] == t[k] by {}
        if j < t.len() {
            assert(is_split(s, absolute, w, j));
        } else if deadline(s[t.len() as int], absolute) >= w {
            assert(is_split(s, absolute, w, t.len() as int));
        } else {
            assert(is_split(s, absolute, w, s.len() as int));
        }
    }
}

/// Adding a timer to a clock keeps both lists sorted: the list that the
/// timer's expiry selects (positive: absolute, otherwise relative) gains
/// exactly the new timer, at its split position, and keeps every earlier
/// timer in order; the other list is unchanged.
pub proof fn lemma_add_keeps_sorted<C>(s: ClockState<C>, u: TimeoutUser<C>)
    requires
        s.wf(),
    ensures
        ({
            let absolute = u.expiry() > 0;
            let list = if absolute { s.abs } else { s.rel };
            let i = split_index(list, absolute, deadline(u, absolute));
            &&& 0 <= i <= list.len()
            &&& sorted_by_deadline(list.insert(i, u), absolute)
            &&& list.insert(i, u)[i] == u
            &&& list.insert(i, u).remove(i) == list
            &&& list.insert(i, u).len() == list.len() + 1
        }),
{
    let absolute = u.expiry() > 0;
    let list = if absolute { s.abs } else { s.rel };
    let i = split_index(list, absolute, deadline(u, absolute));
    lemma_split_exists(list, absolute, deadline(u, absolute));
    lemma_insert_sorted(list, absolute, u, i);
    assert(list.insert(i, u).remove(i) =~= list);
}

/// Removing an absolute timer by the entry that `add` recorded undoes the
/// addition, when the timer went in before an existing timer at a position
/// other than the front (`add` records `0` for the front and for the end,
/// and `remove` removes nothing for `0`).
pub proof fn lemma_remove_undoes_add<C>(s: ClockState<C>, u: TimeoutUser<C>)
    requires
        s.wf(),
        u.expiry() > 0,
        0 < split_index(s.abs, true, deadline(u, true)) < s.abs.len(),
    ensures
        s.abs.insert(split_index(s.abs, true, deadline(u, true)), u).remove(
            split_index(s.abs, true, deadline(u, true)),
        ) == s.abs,
{
    let i = split_index(s.abs, true, deadline(u, true));
    assert(s.abs.insert(i, u).remove(i) =~= s.abs);
}

/// The reported wait is the least of the waits of the two lists: it is no
/// more than the ticks until the front deadline of each non-empty list (none
/// when already due), it is one of those, and with both lists empty it is
/// `i64::MAX`.
pub proof fn lemma_pending_wait_is_least<C>(s: ClockState<C>)
    ensures
        s.abs.len() > 0 ==> s.pending_wait() <= (if s.abs[0].expiry() - s.current_time < 0 {
            0
        } else {
            s.abs[0].expiry() - s.current_time
        }),
        s.rel.len() > 0 ==> s.pending_wait() <= (if -s.rel[0].expiry() - s.monotonic_time < 0 {
            0
        } else {
            -s.rel[0].expiry() - s.monotonic_time
        }),
        s.abs.len() == 0 && s.rel.len() == 0 ==> s.pending_wait() == i64::MAX,
        s.pending_wait() == i64::MAX || (s.abs.len() > 0 && s.pending_wait() == (if s.abs[0].expiry()
            - s.current_time < 0 {
            0
        } else {
            s.abs[0].expiry() - s.current_time
        })) || (s.rel.len() > 0 && s.pending_wait() == (if -s.rel[0].expiry() - s.monotonic_time
            < 0 {
            0
        } else {
            -s.rel[0].expiry() - s.monotonic_time
        })),
{
}

} // verus!
