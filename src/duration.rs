use vstd::prelude::*;

use crate::duration_input::Selection;
use crate::number::{decimal_of, parse_i64};

verus! {

/// Seconds in a day, an hour and a minute.
pub const SECONDS_DAY: i64 = 86400;

pub const SECONDS_HOUR: i64 = 3600;

pub const SECONDS_MINUTE: i64 = 60;

/// `a / b` rounded toward zero, as Rust's integer division does.
pub open spec fn trunc_div(a: int, b: int) -> int {
    if a >= 0 {
        a / b
    } else {
        -((-a) / b)
    }
}

/// The remainder of `a / b` rounded toward zero; it has the sign of `a`.
pub open spec fn trunc_rem(a: int, b: int) -> int {
    if a >= 0 {
        a % b
    } else {
        -((-a) % b)
    }
}

/// A span of time in whole seconds, shown as days, hours, minutes and
/// seconds.
pub struct Duration {
    pub seconds: i64,
}

/// A span split into days, hours, minutes and seconds. The parts need not be
/// normalised: 90 minutes is a valid way to write an hour and a half.
#[derive(Clone, Copy)]
pub struct Parts {
    pub days: i64,
    pub hours: i64,
    pub minutes: i64,
    pub seconds: i64,
}

impl Parts {
    /// The span these parts add up to, in seconds.
    pub open spec fn total(self) -> int {
        self.days * SECONDS_DAY + self.hours * SECONDS_HOUR + self.minutes * SECONDS_MINUTE
            + self.seconds
    }

    /// Each part lies below the bound that an input field shows.
    pub open spec fn is_valid(self) -> bool {
        self.seconds < 60 && self.minutes < 60 && self.hours < 24 && self.days < 100
    }
}

/// A span of `s` seconds split as a clock shows it; each part takes the sign
/// of `s`.
pub open spec fn parts_of(s: i64) -> Parts {
    Parts {
        days: trunc_div(s as int, SECONDS_DAY as int) as i64,
        hours: trunc_div(trunc_rem(s as int, SECONDS_DAY as int), SECONDS_HOUR as int) as i64,
        minutes: trunc_div(trunc_rem(s as int, SECONDS_HOUR as int), SECONDS_MINUTE as int) as i64,
        seconds: trunc_rem(s as int, SECONDS_MINUTE as int) as i64,
    }
}

/// `p` with the part that `selection` names set to 0.
pub open spec fn zeroed(p: Parts, selection: Selection) -> Parts {
    match selection {
        Selection::Days => Parts { days: 0, ..p },
        Selection::Hours => Parts { hours: 0, ..p },
        Selection::Minutes => Parts { minutes: 0, ..p },
        Selection::Seconds => Parts { seconds: 0, ..p },
    }
}

/// `s + delta` where that stays within `0..=MAX_SECONDS`, else `s`.
pub open spec fn added(s: int, delta: int) -> int {
    if 0 <= s + delta <= Duration::MAX_SECONDS {
        s + delta
    } else {
        s
    }
}

impl Parts {
    /// Sets the part that `selection` names to 0.
    pub fn zero_selection(&mut self, selection: Selection)
        ensures
            *final(self) == zeroed(*old(self), selection),
    {
        match selection {
            Selection::Days => self.days = 0,
            Selection::Hours => self.hours = 0,
            Selection::Minutes => self.minutes = 0,
            Selection::Seconds => self.seconds = 0,
        }
    }

    /// The span these parts add up to, in seconds.
    pub fn to_seconds(&self) -> (r: i64)
        requires
            i64::MIN <= self.total() <= i64::MAX,
        ensures
            r == self.total(),
    {
        self.total_wide() as i64
    }

    /// The span these parts add up to, in a type wide enough for any parts.
    fn total_wide(&self) -> (r: i128)
        ensures
            r == self.total(),
    {
        let d = self.days as i128;
        let h = self.hours as i128;
        let m = self.minutes as i128;
        assert(-0x1_0000_0000_0000_0000_0000_0000 <= d * 86400 <= 0x1_0000_0000_0000_0000_0000_0000)
            by (nonlinear_arith)
            requires
                i64::MIN <= d <= i64::MAX,
        ;
        assert(-0x1_0000_0000_0000_0000_0000_0000 <= h * 3600 <= 0x1_0000_0000_0000_0000_0000_0000)
            by (nonlinear_arith)
            requires
                i64::MIN <= h <= i64::MAX,
        ;
        assert(-0x1_0000_0000_0000_0000_0000_0000 <= m * 60 <= 0x1_0000_0000_0000_0000_0000_0000)
            by (nonlinear_arith)
            requires
                i64::MIN <= m <= i64::MAX,
        ;
        d * 86400 + h * 3600 + m * 60 + self.seconds as i128
    }

    /// Whether each part lies below the bound that an input field shows:
    /// under 60 seconds and minutes, 24 hours and 100 days.
    pub fn valid(&self) -> (r: bool)
        ensures
            r == self.is_valid(),
    {
        self.seconds < 60 && self.minutes < 60 && self.hours < 24 && self.days < 100
    }
}

impl Duration {
    /// The longest span an input field shows: 99 days, 23 hours, 59 minutes
    /// and 59 seconds.
    pub const MAX_SECONDS: i64 = 99 * 86400 + 23 * 3600 + 59 * 60 + 59;

    /// The span split into days, hours, minutes and seconds.
    pub fn to_parts(&self) -> (r: Parts)
        ensures
            r == parts_of(self.seconds),
    {
        let days = self.seconds / SECONDS_DAY;
        let reminder = self.seconds % SECONDS_DAY;
        let hours = reminder / SECONDS_HOUR;
        let reminder = reminder % SECONDS_HOUR;
        let minutes = reminder / SECONDS_MINUTE;
        let seconds = reminder % SECONDS_MINUTE;
        proof {
            lemma_trunc_rem_nested(self.seconds as int);
        }
        Parts { days, hours, minutes, seconds }
    }

    /// The span that `parts` add up to.
    pub fn from_parts(parts: Parts) -> (r: Duration)
        requires
            i64::MIN <= parts.total() <= i64::MAX,
        ensures
            r.seconds == parts.total(),
    {
        Duration { seconds: parts.to_seconds() }
    }

    /// Adds `parts` to the span, unless the sum would fall outside
    /// `0..=MAX_SECONDS`; then the span stays as it is.
    pub fn add_parts(&mut self, parts: Parts)
        ensures
            final(self).seconds == added(old(self).seconds as int, parts.total()),
    {
        let seconds = self.seconds as i128 + parts.total_wide();
        if seconds > Self::MAX_SECONDS as i128 || seconds < 0 {
            return;
        }
        self.seconds = seconds as i64;
    }

    /// Sets the span to zero.
    pub fn reset(&mut self)
        ensures
            final(self).seconds == 0,
    {
        self.seconds = 0;
    }
}

/// The pieces of `s` between its colons, in order; a string without colons
/// is one piece.
pub open spec fn split_colons(s: Seq<char>) -> Seq<Seq<char>>
    decreases s.len(),
{
    if s.len() == 0 {
        seq![Seq::empty()]
    } else {
        let p = split_colons(s.drop_last());
        if s.last() == ':' {
            p.push(Seq::empty())
        } else {
            p.update(p.len() - 1, p.last().push(s.last()))
        }
    }
}

/// The parts that `dd:hh:mm:ss` text writes: four decimal numbers between
/// colons.
pub open spec fn parts_text(s: Seq<char>) -> Option<Parts> {
    let p = split_colons(s);
    if p.len() == 4 && decimal_of(p[0]) is Some && decimal_of(p[1]) is Some && decimal_of(
        p[2],
    ) is Some && decimal_of(p[3]) is Some {
        Some(
            Parts {
                days: decimal_of(p[0])->0 as i64,
                hours: decimal_of(p[1])->0 as i64,
                minutes: decimal_of(p[2])->0 as i64,
                seconds: decimal_of(p[3])->0 as i64,
            },
        )
    } else {
        None
    }
}

impl Parts {
    /// Reads `dd:hh:mm:ss` text: four decimal numbers between colons.
    pub fn parse(value: &str) -> (r: Result<Parts, ()>)
        ensures
            match r {
                Ok(p) => parts_text(value@) == Some(p),
                Err(_) => parts_text(value@) is None,
            },
    {
        let n = value.unicode_len();
        let mut pieces: Vec<String> = Vec::new();
        pieces.push(String::new());
        let mut i: usize = 0;
        while i < n
            invariant
                n == value@.len(),
                i <= n,
                pieces@.len() == split_colons(value@.subrange(0, i as int)).len(),
                pieces@.len() >= 1,
                forall|j: int|
                    0 <= j < pieces@.len() ==> (#[trigger] pieces@[j])@ == split_colons(
                        value@.subrange(0, i as int),
                    )[j],
            decreases n - i,
        {
            let c = value.get_char(i);
            let ghost before = pieces@;
            let ghost sp = split_colons(value@.subrange(0, i as int));
            assert(value@.subrange(0, i + 1).drop_last() =~= value@.subrange(0, i as int));
            if c == ':' {
                pieces.push(String::new());
                proof {
                    assert forall|j: int| 0 <= j < pieces@.len() implies (#[trigger] pieces@[j])@
                        == split_colons(value@.subrange(0, i + 1))[j] by {
                        if j < before.len() {
                            assert(pieces@[j] == before[j]);
                        }
                    }
                }
            } else {
                let last = pieces.len() - 1;
                let mut piece = pieces[last].clone();
                piece.append(value.substring_char(i, i + 1));
                assert(piece@ =~= sp.last().push(c));
                pieces.set(last, piece);
                proof {
                    assert forall|j: int| 0 <= j < pieces@.len() implies (#[trigger] pieces@[j])@
                        == split_colons(value@.subrange(0, i + 1))[j] by {
                        if j < last {
                            assert(pieces@[j] == before[j]);
                        }
                    }
                }
            }
            i = i + 1;
        }
        assert(value@.subrange(0, n as int) =~= value@);
        if pieces.len() != 4 {
            return Err(());
        }
        let days = parse_i64(pieces[0].as_str());
        let hours = parse_i64(pieces[1].as_str());
        let minutes = parse_i64(pieces[2].as_str());
        let seconds = parse_i64(pieces[3].as_str());
        match (days, hours, minutes, seconds) {
            (Some(days), Some(hours), Some(minutes), Some(seconds)) => Ok(
                Parts { days, hours, minutes, seconds },
            ),
            _ => Err(()),
        }
    }
}

/// The decimal digit for `d`, from 0 to 9.
pub open spec fn digit_char(d: int) -> char {
    "0123456789"@[d]
}

/// `n`, from 0 to 99, written with two digits.
pub open spec fn two_digits(n: int) -> Seq<char> {
    seq![digit_char(n / 10), digit_char(n % 10)]
}

/// The `dd:hh:mm:ss` text of a span between 0 and `MAX_SECONDS`.
pub open spec fn duration_text(s: i64) -> Seq<char> {
    let p = parts_of(s);
    two_digits(p.days as int) + ":"@ + two_digits(p.hours as int) + ":"@ + two_digits(
        p.minutes as int,
    ) + ":"@ + two_digits(p.seconds as int)
}

/// Writes `n`, from 0 to 99, with two digits.
fn push_two_digits(out: &mut String, n: i64)
    requires
        0 <= n < 100,
    ensures
        final(out)@ == old(out)@ + two_digits(n as int),
{
    let digits = "0123456789";
    proof {
        reveal_strlit("0123456789");
    }
    let tens = (n / 10) as usize;
    let ones = (n % 10) as usize;
    out.append(digits.substring_char(tens, tens + 1));
    out.append(digits.substring_char(ones, ones + 1));
    assert(out@ =~= old(out)@ + two_digits(n as int));
}

impl Duration {
    /// The span as `dd:hh:mm:ss`, each part with two digits.
    pub fn to_text(&self) -> (r: String)
        requires
            0 <= self.seconds <= Duration::MAX_SECONDS,
        ensures
            r@ == duration_text(self.seconds),
    {
        proof {
            lemma_parts_round_trip(self.seconds);
        }
        let p = self.to_parts();
        let mut r = String::new();
        push_two_digits(&mut r, p.days);
        r.append(":");
        push_two_digits(&mut r, p.hours);
        r.append(":");
        push_two_digits(&mut r, p.minutes);
        r.append(":");
        push_two_digits(&mut r, p.seconds);
        assert(r@ =~= duration_text(self.seconds));
        r
    }
}

/// The remainder by an hour of the remainder by a day is the remainder by an
/// hour; likewise for minutes.
proof fn lemma_trunc_rem_nested(s: int)
    ensures
        trunc_rem(trunc_rem(s, 86400), 3600) == trunc_rem(s, 3600),
        trunc_rem(trunc_rem(s, 3600), 60) == trunc_rem(s, 60),
{
    assert(trunc_rem(trunc_rem(s, 86400), 3600) == trunc_rem(s, 3600)) by (nonlinear_arith);
    assert(trunc_rem(trunc_rem(s, 3600), 60) == trunc_rem(s, 60)) by (nonlinear_arith);
}

/// Splitting a span into parts and adding them up again gives the span back,
/// and a span between 0 and `MAX_SECONDS` splits into valid parts of at
/// least 0.
pub proof fn lemma_parts_round_trip(s: i64)
    ensures
        parts_of(s).total() == s,
        0 <= s <= Duration::MAX_SECONDS ==> parts_of(s).is_valid() && parts_of(s).days >= 0
            && parts_of(s).hours >= 0 && parts_of(s).minutes >= 0 && parts_of(s).seconds >= 0,
{
    assert(parts_of(s).total() == s) by (nonlinear_arith);
    assert(0 <= s <= Duration::MAX_SECONDS ==> parts_of(s).is_valid()) by (nonlinear_arith);
}

} // verus!
