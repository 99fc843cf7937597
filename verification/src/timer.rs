//! The countdown itself: its state, and what starting, pausing, a tick of
//! the clock and marking do to it.
//!
//! Time is a reading of a monotonic clock in nanoseconds since an origin
//! that the caller fixes once. The caller samples the clock and hands the
//! reading in; nothing here reads a clock.

use crate::date_str::{
    lemma_of_seconds_round_trip, lemma_padded_same_duration, DateStr, Triple,
};
use crate::decimal::{parse_u64, to_decimal};
use crate::storage::{text_of, Saved};
use vstd::prelude::*;
use vstd::string::*;

verus! {

/// Nanoseconds in a second.
pub const NANOS_PER_SEC: u64 = 1_000_000_000;

/// The longest that the caller may wait before the next frame, in
/// seconds, so that the fields of a running countdown stay current.
pub const TICK_EVERY_SECS: u64 = 1;

/// The mathematical content of a [`TimerState`].
pub struct TimerView {
    /// The triple that the user sees and, while paused, edits.
    pub input: Triple,
    /// The triple that was marked last.
    pub marked: Triple,
    /// The clock reading at which the countdown reaches zero.
    pub target: u128,
    /// Whether the countdown stands still.
    pub paused: bool,
    /// Seconds left of the countdown.
    pub remaining: u64,
    /// Seconds that the countdown was last started with.
    pub duration: u64,
}

/// The clock reading that lies `secs` seconds after `now`.
pub open spec fn deadline(now: u64, secs: u64) -> u128 {
    (now + secs * NANOS_PER_SEC) as u128
}

/// Whole seconds from `now` until `target`: zero at and after the target,
/// and never more than `u64::MAX`.
pub open spec fn seconds_until(target: u128, now: u64) -> u64 {
    if now < target {
        let whole = (target - now) / (NANOS_PER_SEC as int);
        if whole > u64::MAX {
            u64::MAX
        } else {
            whole as u64
        }
    } else {
        0
    }
}

/// The caption of the Start/Pause control.
pub open spec fn toggle_text(paused: bool) -> Seq<char> {
    if paused {
        "Start"@
    } else {
        "Pause"@
    }
}

/// The caption of the Mark control: the word `Mark` and the marked triple,
/// its fields separated by colons.
pub open spec fn mark_text(marked: Triple) -> Seq<char> {
    "Mark: "@ + marked.hour + ":"@ + marked.minute + ":"@ + marked.second
}

impl TimerView {
    /// A timer that was never started: paused, everything zero, all fields
    /// `00`.
    pub open spec fn fresh(now: u64) -> TimerView {
        TimerView {
            input: Triple::zero(),
            marked: Triple::zero(),
            target: now as u128,
            paused: true,
            remaining: 0,
            duration: 0,
        }
    }

    /// The timer after Start at `now`: the input fields are padded, the
    /// duration they denote becomes both the configured duration and the
    /// time left, and the countdown runs towards `now` plus that duration.
    pub open spec fn started(self, now: u64) -> TimerView {
        let input = self.input.padded();
        let secs = input.seconds() as u64;
        TimerView {
            input,
            target: deadline(now, secs),
            paused: false,
            remaining: secs,
            duration: secs,
            ..self
        }
    }

    /// The timer after Pause: it stands still, with the time left as the
    /// last tick computed it.
    pub open spec fn halted(self) -> TimerView {
        TimerView { paused: true, ..self }
    }

    /// The timer after the Start/Pause control: started when it was
    /// paused, paused when it was running.
    pub open spec fn toggled(self, now: u64) -> TimerView {
        if self.paused {
            self.started(now)
        } else {
            self.halted()
        }
    }

    /// The timer after a tick of the clock at `now`.
    ///
    /// Paused, only the target moves: it is anchored at `now` plus the time
    /// left. Running, the time left becomes the whole seconds until the
    /// target, zero once the target is reached, and the input fields show
    /// it.
    pub open spec fn ticked(self, now: u64) -> TimerView {
        if self.paused {
            TimerView { target: deadline(now, self.remaining), ..self }
        } else {
            let left = seconds_until(self.target, now);
            TimerView { remaining: left, input: Triple::of_seconds(left as nat), ..self }
        }
    }

    /// The timer after Mark: the marked triple is the input triple as it
    /// stands.
    pub open spec fn with_mark(self) -> TimerView {
        TimerView { marked: self.input, ..self }
    }

    /// The timer with the input fields replaced.
    pub open spec fn with_input(self, input: Triple) -> TimerView {
        TimerView { input, ..self }
    }

    /// Whether the input fields denote the time left.
    pub open spec fn shows_remaining(self) -> bool {
        self.input.seconds() == self.remaining
    }

    /// The timer after one frame at `now`: first the Start/Pause control if
    /// it was used, then the tick, then Mark if it was used.
    pub open spec fn updated(self, now: u64, toggle: bool, mark: bool) -> TimerView {
        let after_toggle = if toggle {
            self.toggled(now)
        } else {
            self
        };
        let after_tick = after_toggle.ticked(now);
        if mark {
            after_tick.with_mark()
        } else {
            after_tick
        }
    }
}

/// Start reads the input fields as they stand: padding them first does not
/// change the duration. The countdown begins with all of it left.
pub proof fn lemma_started_duration(s: TimerView, now: u64)
    ensures
        s.started(now).duration == s.input.seconds(),
        s.started(now).remaining == s.input.seconds(),
        s.started(now).target == deadline(now, s.input.seconds() as u64),
        !s.started(now).paused,
{
    lemma_padded_same_duration(s.input);
}

/// While the clock does not run backwards, a running countdown never shows
/// more than it was started with, and shows nothing once the target is
/// reached.
pub proof fn lemma_tick_within_duration(s: TimerView, started_at: u64, now: u64)
    requires
        started_at <= now,
    ensures
        s.started(started_at).ticked(now).remaining <= s.started(started_at).duration,
        now >= s.started(started_at).target ==> s.started(started_at).ticked(now).remaining == 0,
{
    let t = s.started(started_at);
    let secs = t.duration;
    if now < t.target {
        assert((t.target - now) / (NANOS_PER_SEC as int) <= secs) by (nonlinear_arith)
            requires
                t.target - now <= secs * NANOS_PER_SEC,
                NANOS_PER_SEC == 1_000_000_000,
        ;
    }
}

/// The timer changes phase by the Start/Pause control and by nothing
/// else: the control turns a paused timer into a running one and a running
/// one into a paused one; a tick and a mark leave the phase as it is.
pub proof fn lemma_phase(s: TimerView, now: u64)
    ensures
        s.toggled(now).paused == !s.paused,
        s.ticked(now).paused == s.paused,
        s.with_mark().paused == s.paused,
        s.updated(now, false, false).paused == s.paused,
        s.updated(now, false, true).paused == s.paused,
        s.updated(now, true, false).paused == !s.paused,
        s.updated(now, true, true).paused == !s.paused,
{
}

/// A running timer shows the time left in its input fields: right after
/// Start, and after every frame that leaves it running.
pub proof fn lemma_running_shows_remaining(s: TimerView, now: u64, toggle: bool, mark: bool)
    ensures
        s.started(now).shows_remaining(),
        !s.updated(now, toggle, mark).paused ==> s.updated(now, toggle, mark).shows_remaining(),
{
    let after_toggle = if toggle {
        s.toggled(now)
    } else {
        s
    };
    if !after_toggle.paused {
        lemma_of_seconds_round_trip(seconds_until(after_toggle.target, now) as nat);
    }
}

/// A second tick at the same clock reading changes nothing.
pub proof fn lemma_tick_twice(s: TimerView, now: u64)
    ensures
        s.ticked(now).ticked(now) == s.ticked(now),
{
}

/// A tick leaves a paused timer as it is but for the target, which is
/// anchored at the moment of the tick plus the time left. Pausing keeps the
/// time left.
pub proof fn lemma_paused_tick(s: TimerView, now: u64)
    requires
        s.paused,
    ensures
        s.ticked(now).remaining == s.remaining,
        s.ticked(now).input == s.input,
        s.ticked(now).target == deadline(now, s.remaining),
        s.ticked(now).paused,
{
}

/// Marking copies the input fields; editing the input afterwards leaves
/// the mark alone.
pub proof fn lemma_mark_is_a_copy(s: TimerView, edited: Triple)
    ensures
        s.with_mark().marked == s.input,
        s.with_mark().with_input(edited).marked == s.input,
{
}

/// The state of the countdown timer.
///
/// The state is read through the methods below and changed only by them;
/// what each of them does is said over the state's view, a [`TimerView`].
#[derive(Debug)]
pub struct TimerState {
    input: DateStr,
    marked: DateStr,
    target: u128,
    paused: bool,
    remaining: u64,
    duration: u64,
}

impl View for TimerState {
    type V = TimerView;

    closed spec fn view(&self) -> TimerView {
        TimerView {
            input: self.input@,
            marked: self.marked@,
            target: self.target,
            paused: self.paused,
            remaining: self.remaining,
            duration: self.duration,
        }
    }
}

/// The clock reading that lies `secs` seconds after `now`.
fn deadline_after(now: u64, secs: u64) -> (r: u128)
    ensures
        r == deadline(now, secs),
{
    assert(secs * NANOS_PER_SEC <= u64::MAX * 1_000_000_000) by (nonlinear_arith)
        requires
            secs <= u64::MAX,
            NANOS_PER_SEC == 1_000_000_000,
    ;
    now as u128 + secs as u128 * (NANOS_PER_SEC as u128)
}

impl TimerState {
    /// A timer that was never started.
    pub fn new(now: u64) -> (r: Self)
        ensures
            r@ == TimerView::fresh(now),
    {
        TimerState {
            input: DateStr::default(),
            marked: DateStr::default(),
            target: now as u128,
            paused: true,
            remaining: 0,
            duration: 0,
        }
    }

    /// What is to be written to the store for this timer.
    pub fn save(&self) -> (r: Saved)
        ensures
            r@ == self@.saved(),
    {
        Saved {
            remaining: to_decimal(self.remaining),
            duration: to_decimal(self.duration),
            marked: to_decimal(self.marked.parse_secs()),
        }
    }

    /// The timer as restored at `now` from the values that the store holds
    /// under the three keys, `None` standing for a key that is not there.
    pub fn restore(
        now: u64,
        remaining: Option<&str>,
        duration: Option<&str>,
        marked: Option<&str>,
    ) -> (r: Self)
        ensures
            r@ == TimerView::restored(now, text_of(remaining), text_of(duration), text_of(marked)),
    {
        let r = match remaining {
            Some(s) => parse_u64(s),
            None => None,
        };
        let d = match duration {
            Some(s) => parse_u64(s),
            None => None,
        };
        let m = match marked {
            Some(s) => parse_u64(s),
            None => None,
        };
        match (r, d, m) {
            (Some(r), Some(d), Some(m)) => TimerState {
                input: DateStr::from_seconds(r),
                marked: DateStr::from_seconds(m),
                target: deadline_after(now, d),
                paused: true,
                remaining: r,
                duration: d,
            },
            _ => TimerState::new(now),
        }
    }

    /// Whether the countdown stands still.
    pub fn is_paused(&self) -> (r: bool)
        ensures
            r == self@.paused,
    {
        self.paused
    }

    /// Seconds left of the countdown.
    pub fn remaining(&self) -> (r: u64)
        ensures
            r == self@.remaining,
    {
        self.remaining
    }

    /// Seconds that the countdown was last started with.
    pub fn duration(&self) -> (r: u64)
        ensures
            r == self@.duration,
    {
        self.duration
    }

    /// The clock reading at which the countdown reaches zero.
    pub fn target(&self) -> (r: u128)
        ensures
            r == self@.target,
    {
        self.target
    }

    /// The triple that the user sees.
    pub fn input(&self) -> (r: &DateStr)
        ensures
            r@ == self@.input,
    {
        &self.input
    }

    /// The triple that was marked last.
    pub fn marked(&self) -> (r: &DateStr)
        ensures
            r@ == self@.marked,
    {
        &self.marked
    }

    /// The caption of the Start/Pause control: `Start` while paused,
    /// `Pause` while running.
    pub fn toggle_label(&self) -> (r: &'static str)
        ensures
            r@ == toggle_text(self@.paused),
    {
        if self.paused {
            "Start"
        } else {
            "Pause"
        }
    }

    /// The caption of the Mark control.
    pub fn mark_label(&self) -> (r: String)
        ensures
            r@ == mark_text(self@.marked),
    {
        let mut r = String::from_str("Mark: ");
        r.append(self.marked.hour.as_str());
        r.append(":");
        r.append(self.marked.minute.as_str());
        r.append(":");
        r.append(self.marked.second.as_str());
        r
    }

    /// Replaces the input fields, as the user does by editing them. The
    /// fields can be edited only while the timer is paused.
    pub fn set_input(&mut self, input: DateStr)
        requires
            old(self)@.paused,
        ensures
            final(self)@ == old(self)@.with_input(input@),
    {
        self.input = input;
    }

    /// Starts the countdown from the input fields.
    pub fn start(&mut self, now: u64)
        requires
            old(self)@.paused,
        ensures
            final(self)@ == old(self)@.started(now),
    {
        self.input.pad();
        let secs = self.input.parse_secs();
        self.paused = false;
        self.target = deadline_after(now, secs);
        self.duration = secs;
        self.remaining = secs;
    }

    /// Pauses the countdown.
    pub fn pause(&mut self)
        requires
            !old(self)@.paused,
        ensures
            final(self)@ == old(self)@.halted(),
    {
        self.paused = true;
    }

    /// The Start/Pause control: starts a paused timer, pauses a running one.
    pub fn toggle(&mut self, now: u64)
        ensures
            final(self)@ == old(self)@.toggled(now),
    {
        if self.paused {
            self.start(now);
        } else {
            self.pause();
        }
    }

    /// Brings the timer up to the clock reading `now`.
    pub fn tick(&mut self, now: u64)
        ensures
            final(self)@ == old(self)@.ticked(now),
    {
        if self.paused {
            self.target = deadline_after(now, self.remaining);
        } else {
            let left: u64 = if (now as u128) < self.target {
                let whole: u128 = (self.target - now as u128) / (NANOS_PER_SEC as u128);
                if whole > u64::MAX as u128 {
                    u64::MAX
                } else {
                    whole as u64
                }
            } else {
                0
            };
            self.remaining = left;
            self.input = DateStr::from_seconds(left);
        }
    }

    /// Marks the input triple as it stands.
    pub fn mark(&mut self)
        ensures
            final(self)@ == old(self)@.with_mark(),
    {
        self.marked = self.input.clone();
    }

    /// One frame: the Start/Pause control if `toggle` is set, then the tick
    /// at `now`, then Mark if `mark` is set.
    ///
    /// Returns the number of seconds within which the caller has to come
    /// back with the next frame, whether or not the user does anything.
    pub fn update(&mut self, now: u64, toggle: bool, mark: bool) -> (next: u64)
        ensures
            final(self)@ == old(self)@.updated(now, toggle, mark),
            next == TICK_EVERY_SECS,
    {
        if toggle {
            self.toggle(now);
        }
        self.tick(now);
        if mark {
            self.mark();
        }
        TICK_EVERY_SECS
    }
}

} // verus!
