//! A duration shown as three text fields: hours, minutes and seconds.

use crate::decimal::{
    decimal, field_value, lemma_decimal_digits, lemma_pad2_field_value,
    lemma_parse_decimal_of_decimal, lemma_short_field_value, pad2, pad_two, parse_field,
    to_decimal,
};
use vstd::prelude::*;
use vstd::string::*;

verus! {

/// Seconds in a minute.
pub const SECS_PER_MINUTE: u64 = 60;

/// Seconds in an hour.
pub const SECS_PER_HOUR: u64 = 3600;

/// The width of a field in characters: an entry field takes no more, and
/// a shorter field is padded to it when the countdown starts.
pub const FIELD_CHARS: usize = 2;

/// The mathematical content of a [`DateStr`]: the characters of its three
/// fields.
pub struct Triple {
    pub hour: Seq<char>,
    pub minute: Seq<char>,
    pub second: Seq<char>,
}

impl Triple {
    /// The duration that the triple denotes, in seconds, as an unbounded
    /// number: hours times 3600 plus minutes times 60 plus seconds, where a
    /// field that denotes no number counts as zero.
    pub open spec fn total_seconds(self) -> nat {
        field_value(self.hour) * 3600 + field_value(self.minute) * 60 + field_value(self.second)
    }

    /// The duration as a 64-bit number of seconds: `total_seconds`, held at
    /// `u64::MAX` where it would be larger.
    pub open spec fn seconds(self) -> nat {
        if self.total_seconds() <= u64::MAX {
            self.total_seconds()
        } else {
            u64::MAX as nat
        }
    }

    /// The triple that shows `n` seconds: whole hours, then the minutes
    /// and seconds left over, each in decimal and at least two digits wide.
    pub open spec fn of_seconds(n: nat) -> Triple {
        Triple {
            hour: pad2(decimal(n / 3600)),
            minute: pad2(decimal((n % 3600) / 60)),
            second: pad2(decimal(n % 60)),
        }
    }

    /// The triple with each field filled up on the left with `0` to two
    /// characters.
    pub open spec fn padded(self) -> Triple {
        Triple { hour: pad2(self.hour), minute: pad2(self.minute), second: pad2(self.second) }
    }

    /// The triple `00`, `00`, `00`.
    pub open spec fn zero() -> Triple {
        Triple { hour: seq!['0', '0'], minute: seq!['0', '0'], second: seq!['0', '0'] }
    }
}

/// With fields of at most [`FIELD_CHARS`] characters, which is all that
/// the entry fields take, the duration of a triple is below one hundred
/// and one hours and so always fits in 64 bits.
pub proof fn lemma_short_fields_fit(t: Triple)
    requires
        t.hour.len() <= FIELD_CHARS,
        t.minute.len() <= FIELD_CHARS,
        t.second.len() <= FIELD_CHARS,
    ensures
        t.total_seconds() <= 99 * 3600 + 99 * 60 + 99,
        t.seconds() == t.total_seconds(),
{
    lemma_short_field_value(t.hour);
    lemma_short_field_value(t.minute);
    lemma_short_field_value(t.second);
}

/// Padding the fields does not change the duration that a triple denotes.
pub proof fn lemma_padded_same_duration(t: Triple)
    ensures
        t.padded().total_seconds() == t.total_seconds(),
        t.padded().seconds() == t.seconds(),
{
    lemma_pad2_field_value(t.hour);
    lemma_pad2_field_value(t.minute);
    lemma_pad2_field_value(t.second);
}

/// Showing a number of seconds as a triple and reading the triple back
/// gives the number again. This holds for every 64-bit number, also beyond
/// ninety-nine hours, where the hour field grows past two digits.
pub proof fn lemma_of_seconds_round_trip(n: nat)
    requires
        n <= u64::MAX,
    ensures
        Triple::of_seconds(n).total_seconds() == n,
        Triple::of_seconds(n).seconds() == n,
{
    lemma_parse_decimal_of_decimal(n / 3600);
    lemma_parse_decimal_of_decimal((n % 3600) / 60);
    lemma_parse_decimal_of_decimal(n % 60);
}

/// Below one hundred hours each field of the triple that shows a duration
/// is exactly two characters wide.
pub proof fn lemma_of_seconds_two_wide(n: nat)
    requires
        n < 100 * 3600,
    ensures
        Triple::of_seconds(n).hour.len() == 2,
        Triple::of_seconds(n).minute.len() == 2,
        Triple::of_seconds(n).second.len() == 2,
{
    lemma_decimal_digits(n / 3600);
    lemma_decimal_digits((n % 3600) / 60);
    lemma_decimal_digits(n % 60);
}

/// A triple that shows a duration is not changed by padding.
pub proof fn lemma_of_seconds_padded(n: nat)
    ensures
        Triple::of_seconds(n).padded() == Triple::of_seconds(n),
{
    lemma_decimal_digits(n / 3600);
    lemma_decimal_digits((n % 3600) / 60);
    lemma_decimal_digits(n % 60);
}

/// The triple that shows zero seconds is `00`, `00`, `00`.
pub proof fn lemma_of_seconds_zero()
    ensures
        Triple::of_seconds(0) == Triple::zero(),
{
}

/// A duration as the user sees and edits it: three free-text fields.
///
/// The fields are ordinary strings. Nothing is demanded of them: a field
/// that is empty or is no number counts as zero when the triple is read.
#[derive(Debug)]
pub struct DateStr {
    pub hour: String,
    pub minute: String,
    pub second: String,
}

impl View for DateStr {
    type V = Triple;

    open spec fn view(&self) -> Triple {
        Triple { hour: self.hour@, minute: self.minute@, second: self.second@ }
    }
}

impl Default for DateStr {
    /// The triple `00`, `00`, `00`.
    fn default() -> (r: Self)
        ensures
            r@ == Triple::zero(),
    {
        proof {
            reveal_strlit("00");
        }
        let r = DateStr {
            hour: String::from_str("00"),
            minute: String::from_str("00"),
            second: String::from_str("00"),
        };
        assert(r.hour@ =~= seq!['0', '0']);
        r
    }
}

impl Clone for DateStr {
    fn clone(&self) -> (r: Self)
        ensures
            r@ == self@,
    {
        DateStr {
            hour: self.hour.clone(),
            minute: self.minute.clone(),
            second: self.second.clone(),
        }
    }
}

impl DateStr {
    /// Shows `sec` seconds as hours, minutes and seconds, each field in
    /// decimal and at least two digits wide.
    pub fn from_seconds(sec: u64) -> (r: Self)
        ensures
            r@ == Triple::of_seconds(sec as nat),
    {
        let h: u64 = sec / SECS_PER_HOUR;
        let m: u64 = (sec % SECS_PER_HOUR) / SECS_PER_MINUTE;
        let s: u64 = sec % SECS_PER_MINUTE;
        DateStr {
            hour: pad_two(to_decimal(h).as_str()),
            minute: pad_two(to_decimal(m).as_str()),
            second: pad_two(to_decimal(s).as_str()),
        }
    }

    /// Reads the triple as a number of seconds.
    ///
    /// Each field gives the number it denotes, or zero when it denotes
    /// none; the result is hours times 3600 plus minutes times 60 plus
    /// seconds. A sum beyond `u64::MAX` is held at `u64::MAX`.
    pub fn parse_secs(&self) -> (r: u64)
        ensures
            r == self@.seconds(),
            self@.total_seconds() <= u64::MAX ==> r == self@.total_seconds(),
    {
        let h: u128 = parse_field(self.hour.as_str()) as u128;
        let m: u128 = parse_field(self.minute.as_str()) as u128;
        let s: u128 = parse_field(self.second.as_str()) as u128;
        assert(h * (SECS_PER_HOUR as u128) == h * 3600) by (nonlinear_arith)
            requires
                SECS_PER_HOUR == 3600,
        ;
        assert(m * (SECS_PER_MINUTE as u128) == m * 60) by (nonlinear_arith)
            requires
                SECS_PER_MINUTE == 60,
        ;
        let total: u128 = h * (SECS_PER_HOUR as u128) + m * (SECS_PER_MINUTE as u128) + s;
        if total > u64::MAX as u128 {
            u64::MAX
        } else {
            total as u64
        }
    }

    /// Fills each field up on the left with `0` to two characters.
    pub fn pad(&mut self)
        ensures
            final(self)@ == old(self)@.padded(),
    {
        let hour = pad_two(self.hour.as_str());
        let minute = pad_two(self.minute.as_str());
        let second = pad_two(self.second.as_str());
        self.hour = hour;
        self.minute = minute;
        self.second = second;
    }
}

} // verus!
