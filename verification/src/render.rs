use vstd::prelude::*;

use crate::app::App;

verus! {

/// The decimal digit character for `d`.
pub open spec fn dec_digit(d: int) -> char
    recommends
        0 <= d < 10,
{
    if d == 0 {
        '0'
    } else if d == 1 {
        '1'
    } else if d == 2 {
        '2'
    } else if d == 3 {
        '3'
    } else if d == 4 {
        '4'
    } else if d == 5 {
        '5'
    } else if d == 6 {
        '6'
    } else if d == 7 {
        '7'
    } else if d == 8 {
        '8'
    } else {
        '9'
    }
}

/// The decimal digits of a nonnegative integer, most significant first.
pub open spec fn dec_of_nat(n: int) -> Seq<char>
    recommends
        n >= 0,
    decreases n,
{
    if n < 10 {
        seq![dec_digit(n)]
    } else {
        dec_of_nat(n / 10).push(dec_digit(n % 10))
    }
}

/// The decimal rendering of an integer, with a leading minus sign for
/// negative values.
pub open spec fn dec_of_int(n: int) -> Seq<char> {
    if n < 0 {
        seq!['-'] + dec_of_nat(-n)
    } else {
        dec_of_nat(n)
    }
}

/// The instruction line of the frame.
pub open spec fn instruction_line() -> Seq<char> {
    "Press j or k to increment or decrement."@
}

/// The counter line of the frame for a counter value `c`.
pub open spec fn counter_line(c: int) -> Seq<char> {
    "Counter: "@ + dec_of_int(c)
}

/// The last-refresh line of the frame for a display string `dt`, shown
/// with debug-style quotes around the string.
pub open spec fn updated_line(dt: Seq<char>) -> Seq<char> {
    "last updated \""@ + dt + "\""@
}

/// The frame title's text.
pub open spec fn title_text() -> Seq<char> {
    "ratatui async counter app"@
}

/// The textual form of one decimal digit.
fn digit_str(d: u64) -> (s: &'static str)
    requires
        d < 10,
    ensures
        s@ =~= seq![dec_digit(d as int)],
{
    proof {
        reveal_strlit("0");
        reveal_strlit("1");
        reveal_strlit("2");
        reveal_strlit("3");
        reveal_strlit("4");
        reveal_strlit("5");
        reveal_strlit("6");
        reveal_strlit("7");
        reveal_strlit("8");
        reveal_strlit("9");
    }
    match d {
        0 => "0",
        1 => "1",
        2 => "2",
        3 => "3",
        4 => "4",
        5 => "5",
        6 => "6",
        7 => "7",
        8 => "8",
        _ => "9",
    }
}

/// The decimal rendering of a nonnegative machine integer.
fn u64_dec(n: u64) -> (s: String)
    ensures
        s@ == dec_of_nat(n as int),
    decreases n,
{
    if n < 10 {
        String::from_str(digit_str(n))
    } else {
        let mut s = u64_dec(n / 10);
        s.append(digit_str(n % 10));
        proof {
            assert(s@ =~= dec_of_nat((n / 10) as int).push(dec_digit((n % 10) as int)));
        }
        s
    }
}

/// The decimal rendering of a signed machine integer, exactly as the
/// mathematical `dec_of_int` describes it.
pub fn i64_to_string(n: i64) -> (s: String)
    ensures
        s@ == dec_of_int(n as int),
{
    if n >= 0 {
        u64_dec(n as u64)
    } else {
        let mag: u64 = ((-(n + 1)) as u64) + 1;
        let mut s = String::from_str("-");
        let digits = u64_dec(mag);
        s.append(digits.as_str());
        proof {
            reveal_strlit("-");
            assert(s@ =~= seq!['-'] + dec_of_nat(-(n as int)));
        }
        s
    }
}

/// The read-only projection of the state onto the frame's three display
/// lines, top to bottom: the instruction line, the counter line, and the
/// last-refresh line. Equal states yield equal lines, and the state is
/// only borrowed.
pub fn ui_lines(app: &App) -> (lines: Vec<String>)
    ensures
        lines@.len() == 3,
        lines@[0]@ == instruction_line(),
        lines@[1]@ == counter_line(app@.counter),
        lines@[2]@ == updated_line(app@.refresh_datetime),
{
    let mut lines: Vec<String> = Vec::new();
    lines.push(String::from_str("Press j or k to increment or decrement."));
    let mut counter = String::from_str("Counter: ");
    let digits = i64_to_string(app.counter);
    counter.append(digits.as_str());
    lines.push(counter);
    let mut updated = String::from_str("last updated \"");
    updated.append(app.refresh_datetime.as_str());
    updated.append("\"");
    lines.push(updated);
    lines
}

/// The frame title, as the bordered block shows it.
pub fn ui_title() -> (title: &'static str)
    ensures
        title@ == title_text(),
{
    "ratatui async counter app"
}

} // verus!
