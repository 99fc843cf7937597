//! The timer as it is kept between runs: three decimal strings under three
//! keys of a flat key-value store.

use crate::date_str::{lemma_of_seconds_round_trip, Triple};
use crate::decimal::{decimal, lemma_parse_decimal_of_decimal, parse_decimal};
use crate::timer::{deadline, TimerView};
use vstd::prelude::*;

verus! {

/// The key under which the seconds left are kept.
pub const KEY_REMAINING: &'static str = "remaining";

/// The key under which the configured duration is kept, in seconds.
pub const KEY_DURATION: &'static str = "duration";

/// The key under which the marked duration is kept, in seconds.
pub const KEY_MARKED: &'static str = "marked";

/// The mathematical content of a [`Saved`]: the characters of its three
/// values.
pub struct SavedView {
    pub remaining: Seq<char>,
    pub duration: Seq<char>,
    pub marked: Seq<char>,
}

/// What is written to the store: one decimal string for each key.
#[derive(Debug)]
pub struct Saved {
    /// The value for [`KEY_REMAINING`].
    pub remaining: String,
    /// The value for [`KEY_DURATION`].
    pub duration: String,
    /// The value for [`KEY_MARKED`].
    pub marked: String,
}

impl View for Saved {
    type V = SavedView;

    open spec fn view(&self) -> SavedView {
        SavedView { remaining: self.remaining@, duration: self.duration@, marked: self.marked@ }
    }
}

/// The characters of a value read from the store, if the key was present.
pub open spec fn text_of(value: Option<&str>) -> Option<Seq<char>> {
    match value {
        Some(s) => Some(s@),
        None => None,
    }
}

/// The number that a value read from the store denotes, if the key was
/// present and its value is an unsigned 64-bit number in decimal.
pub open spec fn stored_number(value: Option<Seq<char>>) -> Option<u64> {
    match value {
        Some(s) => parse_decimal(s),
        None => None,
    }
}

impl TimerView {
    /// What is written to the store for this timer: the seconds left, the
    /// configured duration and the marked duration, each in decimal.
    /// Whether the timer runs is not kept.
    pub open spec fn saved(self) -> SavedView {
        SavedView {
            remaining: decimal(self.remaining as nat),
            duration: decimal(self.duration as nat),
            marked: decimal(self.marked.seconds()),
        }
    }

    /// The timer that is restored at `now` from what the store holds.
    ///
    /// When all three keys are present and each value is an unsigned
    /// 64-bit number in decimal, the timer is paused with those values: the
    /// input fields show the seconds left, the marked fields show the
    /// marked duration, and the target lies the configured duration (not
    /// the seconds left) after `now`. In every other case it is the fresh
    /// timer.
    pub open spec fn restored(
        now: u64,
        remaining: Option<Seq<char>>,
        duration: Option<Seq<char>>,
        marked: Option<Seq<char>>,
    ) -> TimerView {
        match (stored_number(remaining), stored_number(duration), stored_number(marked)) {
            (Some(r), Some(d), Some(m)) => TimerView {
                input: Triple::of_seconds(r as nat),
                marked: Triple::of_seconds(m as nat),
                target: deadline(now, d),
                paused: true,
                remaining: r,
                duration: d,
            },
            _ => TimerView::fresh(now),
        }
    }
}

/// Saving a timer and restoring it from what was saved gives a paused timer
/// with the same seconds left, the same configured duration and the same
/// marked duration, whether or not the timer was running when it was saved.
/// Its input fields show the seconds left, its marked fields show the
/// marked duration, and its target lies the configured duration after the
/// moment of restoring.
pub proof fn lemma_save_restore(s: TimerView, now: u64)
    ensures
        ({
            let saved = s.saved();
            let r = TimerView::restored(
                now,
                Some(saved.remaining),
                Some(saved.duration),
                Some(saved.marked),
            );
            &&& r.paused
            &&& r.remaining == s.remaining
            &&& r.duration == s.duration
            &&& r.marked.seconds() == s.marked.seconds()
            &&& r.marked == Triple::of_seconds(s.marked.seconds())
            &&& r.input == Triple::of_seconds(s.remaining as nat)
            &&& r.target == deadline(now, s.duration)
        }),
{
    lemma_parse_decimal_of_decimal(s.remaining as nat);
    lemma_parse_decimal_of_decimal(s.duration as nat);
    lemma_parse_decimal_of_decimal(s.marked.seconds());
    lemma_of_seconds_round_trip(s.marked.seconds());
}

/// A timer is restored from the store only when all three values are
/// there and are numbers: with a key missing, or a value that is no
/// unsigned 64-bit number, the result is the fresh timer.
pub proof fn lemma_restore_falls_back(
    now: u64,
    remaining: Option<Seq<char>>,
    duration: Option<Seq<char>>,
    marked: Option<Seq<char>>,
)
    requires
        stored_number(remaining) is None || stored_number(duration) is None || stored_number(
            marked,
        ) is None,
    ensures
        TimerView::restored(now, remaining, duration, marked) == TimerView::fresh(now),
{
}

} // verus!
