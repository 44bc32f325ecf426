//! The timestamped markers that precede each message on the console.
use vstd::prelude::*;
use crate::session::Direction;
use crate::text::string_from_chars;

verus! {

/// A local date and time of day, as the console shows it.
pub struct LocalTime {
    day: u8,
    month: u8,
    year: u32,
    hour: u8,
    minute: u8,
    second: u8,
}

pub open spec fn in_range(day: u8, month: u8, hour: u8, minute: u8, second: u8) -> bool {
    &&& 1 <= day <= 31
    &&& 1 <= month <= 12
    &&& hour < 24
    &&& minute < 60
    &&& second < 61
}

pub open spec fn decimal(d: int) -> char {
    seq!['0', '1', '2', '3', '4', '5', '6', '7', '8', '9'][d]
}

/// The last two decimal digits of `n`.
pub open spec fn two_digits(n: int) -> Seq<char> {
    seq![decimal((n % 100) / 10), decimal(n % 10)]
}

pub open spec fn arrow(d: Direction) -> Seq<char> {
    match d {
        Direction::In => seq!['>', '>'],
        Direction::Out => seq!['<', '<'],
    }
}

/// `>> [dd.mm.yy - HH:MM:SS]: ` for inbound, `<<` in its place for outbound.
pub open spec fn marker_text(
    d: Direction,
    day: int,
    month: int,
    year: int,
    hour: int,
    minute: int,
    second: int,
) -> Seq<char> {
    arrow(d) + seq![' ', '['] + two_digits(day) + seq!['.'] + two_digits(month) + seq!['.']
        + two_digits(year) + seq![' ', '-', ' '] + two_digits(hour) + seq![':'] + two_digits(minute)
        + seq![':'] + two_digits(second) + seq![']', ':', ' ']
}

fn decimal_char(d: u32) -> (r: char)
    requires
        d < 10,
    ensures
        r == decimal(d as int),
{
    if d == 0 {
        '0'
    } else if d == 1 {
        '1'
    } else if d == 2 {
        '2'
    } else if d == 3 {
        '3'
    } else if d == 4 {
        '4'
    } else if d == 5 {
        '5'
    } else if d == 6 {
        '6'
    } else if d == 7 {
        '7'
    } else if d == 8 {
        '8'
    } else {
        '9'
    }
}

fn push_two_digits(out: &mut Vec<char>, n: u32)
    ensures
        final(out)@ == old(out)@ + two_digits(n as int),
{
    out.push(decimal_char((n % 100) / 10));
    out.push(decimal_char(n % 10));
    assert(final(out)@ =~= old(out)@ + two_digits(n as int));
}

impl LocalTime {
    pub closed spec fn fields(&self) -> (int, int, int, int, int, int) {
        (
            self.day as int,
            self.month as int,
            self.year as int,
            self.hour as int,
            self.minute as int,
            self.second as int,
        )
    }

    pub open spec fn wf(&self) -> bool {
        let (day, month, year, hour, minute, second) = self.fields();
        &&& 1 <= day <= 31
        &&& 1 <= month <= 12
        &&& 0 <= year
        &&& 0 <= hour < 24
        &&& 0 <= minute < 60
        &&& 0 <= second < 61
    }

    /// The time given, when each part is in its calendar range (a second of
    /// 60 stands for a leap second).
    pub fn new(day: u8, month: u8, year: u32, hour: u8, minute: u8, second: u8) -> (r: Option<
        LocalTime,
    >)
        ensures
            r is Some <==> in_range(day, month, hour, minute, second),
            r matches Some(t) ==> t.wf() && t.fields() == (
                day as int,
                month as int,
                year as int,
                hour as int,
                minute as int,
                second as int,
            ),
    {
        if 1 <= day && day <= 31 && 1 <= month && month <= 12 && hour < 24 && minute < 60 && second
            < 61 {
            Some(LocalTime { day, month, year, hour, minute, second })
        } else {
            None
        }
    }

    /// The console marker for a message going in direction `d` at this time.
    pub fn marker(&self, d: Direction) -> (r: String)
        requires
            self.wf(),
        ensures
            ({
                let (day, month, year, hour, minute, second) = self.fields();
                r@ == marker_text(d, day, month, year, hour, minute, second)
            }),
    {
        let mut out: Vec<char> = Vec::new();
        match d {
            Direction::In => {
                out.push('>');
                out.push('>');
            },
            Direction::Out => {
                out.push('<');
                out.push('<');
            },
        }
        out.push(' ');
        out.push('[');
        push_two_digits(&mut out, self.day as u32);
        out.push('.');
        push_two_digits(&mut out, self.month as u32);
        out.push('.');
        push_two_digits(&mut out, self.year);
        out.push(' ');
        out.push('-');
        out.push(' ');
        push_two_digits(&mut out, self.hour as u32);
        out.push(':');
        push_two_digits(&mut out, self.minute as u32);
        out.push(':');
        push_two_digits(&mut out, self.second as u32);
        out.push(']');
        out.push(':');
        out.push(' ');
        assert(out@ =~= marker_text(
            d,
            self.day as int,
            self.month as int,
            self.year as int,
            self.hour as int,
            self.minute as int,
            self.second as int,
        ));
        string_from_chars(out.as_slice())
    }
}

} // verus!
