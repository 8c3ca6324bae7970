use vstd::prelude::*;

verus! {

/// Decimal digits of `n`, most significant first, without leading zeros
/// (`0` is written as a single digit).
pub open spec fn decimal(n: nat) -> Seq<char>
    decreases n,
{
    if n < 10 {
        seq![digit_char(n)]
    } else {
        decimal(n / 10).push(digit_char(n % 10))
    }
}

pub open spec fn digit_char(d: nat) -> char {
    if d == 0 { '0' }
    else if d == 1 { '1' }
    else if d == 2 { '2' }
    else if d == 3 { '3' }
    else if d == 4 { '4' }
    else if d == 5 { '5' }
    else if d == 6 { '6' }
    else if d == 7 { '7' }
    else if d == 8 { '8' }
    else { '9' }
}

/// `n` in decimal, padded with a leading zero to at least two digits.
pub open spec fn two_digits(n: nat) -> Seq<char> {
    if n < 10 {
        seq!['0'].add(decimal(n))
    } else {
        decimal(n)
    }
}

fn digit_str(d: u64) -> (r: &'static str)
    requires
        d < 10,
    ensures
        r@ == seq![digit_char(d as nat)],
{
    proof {
        reveal_strlit("0");
        reveal_strlit("1");
        reveal_strlit("2");
        reveal_strlit("3");
        reveal_strlit("4");
        reveal_strlit("5");
        reveal_strlit("6");
        reveal_strlit("7");
        reveal_strlit("8");
        reveal_strlit("9");
    }
    if d == 0 { "0" }
    else if d == 1 { "1" }
    else if d == 2 { "2" }
    else if d == 3 { "3" }
    else if d == 4 { "4" }
    else if d == 5 { "5" }
    else if d == 6 { "6" }
    else if d == 7 { "7" }
    else if d == 8 { "8" }
    else { "9" }
}

/// Appends the decimal digits of `n` to `out`.
pub fn push_decimal(out: &mut String, n: u64)
    ensures
        final(out)@ == old(out)@ + decimal(n as nat),
    decreases n,
{
    if n < 10 {
        out.append(digit_str(n));
    } else {
        push_decimal(out, n / 10);
        out.append(digit_str(n % 10));
    }
}

/// A duration split into hours, minutes and seconds.
#[derive(Debug, Clone, Copy, PartialEq, Eq, Structural)]
pub struct Time(pub u64, pub u64, pub u64);

/// Hours, minutes and seconds of a duration of `secs` seconds.
pub open spec fn time_of(secs: u64) -> Time {
    Time(secs / 3600, (secs % 3600) / 60, secs % 60)
}

/// `t` written as two-digit fields separated by `sep`.
pub open spec fn readable(t: Time, sep: Seq<char>) -> Seq<char> {
    two_digits(t.0 as nat) + sep + two_digits(t.1 as nat) + sep + two_digits(t.2 as nat)
}

impl Time {
    /// Total number of seconds.
    pub open spec fn spec_secs(&self) -> int {
        self.0 * 3600 + self.1 * 60 + self.2
    }

    /// Splits a number of seconds into hours, minutes and seconds.
    pub fn from_secs(secs: u64) -> (r: Time)
        ensures
            r == time_of(secs),
            r.spec_secs() == secs,
            r.1 < 60,
            r.2 < 60,
    {
        let hours = secs / 3600;
        let rest = secs - hours * 3600;
        let minutes = rest / 60;
        let seconds = rest - minutes * 60;
        Time(hours, minutes, seconds)
    }

    /// Total number of seconds.
    pub fn as_secs(&self) -> (r: u64)
        requires
            self.spec_secs() <= u64::MAX,
        ensures
            r == self.spec_secs(),
    {
        self.0 * 3600 + self.1 * 60 + self.2
    }

    /// Placeholder text for an unknown time, with `separator` between fields.
    pub fn to_unknown_readable(separator: &str) -> (r: String)
        ensures
            r@ == seq!['?', '?'] + separator@ + seq!['?', '?'] + separator@ + seq!['?', '?'],
    {
        proof {
            reveal_strlit("??");
        }
        let mut s = String::from_str("??");
        s.append(separator);
        s.append("??");
        s.append(separator);
        s.append("??");
        s
    }

    /// Each field in decimal, padded to at least two digits, with
    /// `separator` between fields.
    pub fn to_readable(&self, separator: &str) -> (r: String)
        ensures
            r@ == readable(*self, separator@),
    {
        let mut s = String::new();
        push_two_digits(&mut s, self.0);
        s.append(separator);
        push_two_digits(&mut s, self.1);
        s.append(separator);
        push_two_digits(&mut s, self.2);
        s
    }
}

/// Appends `n` in decimal, padded to at least two digits.
pub fn push_two_digits(out: &mut String, n: u64)
    ensures
        final(out)@ == old(out)@ + two_digits(n as nat),
{
    if n < 10 {
        proof {
            reveal_strlit("0");
        }
        out.append("0");
    }
    push_decimal(out, n);
    proof {
        assert(old(out)@ + two_digits(n as nat) =~= out@) by {
            if n < 10 {
                assert(old(out)@ + seq!['0'] + decimal(n as nat) =~= old(out)@ + (seq!['0'] + decimal(n as nat)));
            }
        }
    }
}

/// `n` in decimal, padded with leading zeros to at least four digits.
pub open spec fn four_digits(n: nat) -> Seq<char> {
    if n < 10 {
        seq!['0', '0', '0'] + decimal(n)
    } else if n < 100 {
        seq!['0', '0'] + decimal(n)
    } else if n < 1000 {
        seq!['0'] + decimal(n)
    } else {
        decimal(n)
    }
}

/// A calendar date and wall-clock time at some offset from UTC.
#[derive(Debug, Clone, Copy, PartialEq, Eq, Structural)]
pub struct LocalDateTime {
    pub year: u32,
    pub month: u32,
    pub day: u32,
    pub hour: u32,
    pub minute: u32,
    pub second: u32,
}

impl LocalDateTime {
    /// Fields within the ranges of a calendar and a clock, with a year of at
    /// most four digits.
    pub open spec fn wf(&self) -> bool {
        &&& self.year <= 9999
        &&& 1 <= self.month <= 12
        &&& 1 <= self.day <= 31
        &&& self.hour < 24
        &&& self.minute < 60
        &&& self.second < 61
    }

    /// The stamp `YYYY-MM-DD_HH-MM-SS` that names a session's directory.
    pub open spec fn spec_stamp(&self) -> Seq<char> {
        four_digits(self.year as nat) + seq!['-'] + two_digits(self.month as nat) + seq!['-']
            + two_digits(self.day as nat) + seq!['_'] + two_digits(self.hour as nat) + seq!['-']
            + two_digits(self.minute as nat) + seq!['-'] + two_digits(self.second as nat)
    }

    /// Returns the stamp `YYYY-MM-DD_HH-MM-SS` that names a session's
    /// directory.
    pub fn stamp(&self) -> (r: String)
        requires
            self.wf(),
        ensures
            r@ == self.spec_stamp(),
    {
        proof {
            reveal_strlit("0");
            reveal_strlit("00");
            reveal_strlit("000");
            reveal_strlit("-");
            reveal_strlit("_");
        }
        let mut s = String::new();
        let y = self.year as u64;
        if y < 10 {
            s.append("000");
        } else if y < 100 {
            s.append("00");
        } else if y < 1000 {
            s.append("0");
        }
        push_decimal(&mut s, y);
        let ghost year_part = s@;
        proof {
            assert(year_part =~= four_digits(self.year as nat));
        }
        s.append("-");
        push_two_digits(&mut s, self.month as u64);
        s.append("-");
        push_two_digits(&mut s, self.day as u64);
        s.append("_");
        push_two_digits(&mut s, self.hour as u64);
        s.append("-");
        push_two_digits(&mut s, self.minute as u64);
        s.append("-");
        push_two_digits(&mut s, self.second as u64);
        proof {
            assert(s@ =~= self.spec_stamp());
        }
        s
    }
}

} // verus!
