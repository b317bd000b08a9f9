//! The real-time clock in CMOS: which registers hold the date and time, and how they are
//! read once the clock is in binary, 24-hour mode.
use vstd::prelude::*;
use vstd::string::StringExecFns;

use crate::port::Port;
use crate::port::PortGeneric;

verus! {

/// Register that holds the status flags B.
pub const STATUS_B: u8 = 0x0B;

/// Registers of the CMOS that the date and time come from: at least up to the century.
pub const CMOS_REGISTERS: usize = 0x33;

/// The two ports of the CMOS: one selects a register, the other reads or writes it.
pub struct Cmos {
    pub register_number: Port<u8>,
    pub config: Port<u8>,
}

/// Days of the week, numbered from Sunday as 1.
#[derive(Clone, Copy, Debug, PartialEq, Eq, Structural)]
pub enum Weekday {
    Sunday,
    Monday,
    Tuesday,
    Wednesday,
    Thursday,
    Friday,
    Saturday,
}

/// Months, numbered from January as 1.
#[derive(Clone, Copy, Debug, PartialEq, Eq, Structural)]
pub enum Month {
    Jan,
    Feb,
    Mar,
    Apr,
    May,
    Jun,
    Jul,
    Aug,
    Sep,
    Oct,
    Nov,
    Dec,
}

/// The weekday numbered `v`, if any.
pub open spec fn spec_weekday(v: u8) -> Option<Weekday> {
    if v == 1 {
        Some(Weekday::Sunday)
    } else if v == 2 {
        Some(Weekday::Monday)
    } else if v == 3 {
        Some(Weekday::Tuesday)
    } else if v == 4 {
        Some(Weekday::Wednesday)
    } else if v == 5 {
        Some(Weekday::Thursday)
    } else if v == 6 {
        Some(Weekday::Friday)
    } else if v == 7 {
        Some(Weekday::Saturday)
    } else {
        None
    }
}

/// The month numbered `v`, if any.
pub open spec fn spec_month(v: u8) -> Option<Month> {
    if v == 1 {
        Some(Month::Jan)
    } else if v == 2 {
        Some(Month::Feb)
    } else if v == 3 {
        Some(Month::Mar)
    } else if v == 4 {
        Some(Month::Apr)
    } else if v == 5 {
        Some(Month::May)
    } else if v == 6 {
        Some(Month::Jun)
    } else if v == 7 {
        Some(Month::Jul)
    } else if v == 8 {
        Some(Month::Aug)
    } else if v == 9 {
        Some(Month::Sep)
    } else if v == 10 {
        Some(Month::Oct)
    } else if v == 11 {
        Some(Month::Nov)
    } else if v == 12 {
        Some(Month::Dec)
    } else {
        None
    }
}

impl Weekday {
    /// The weekday numbered `value`; gives `value` back when it names none.
    pub fn try_from(value: u8) -> (r: Result<Weekday, u8>)
        ensures
            r == (match spec_weekday(value) {
                Some(d) => Ok(d),
                None => Err(value),
            }),
    {
        if value == 1 {
            Ok(Weekday::Sunday)
        } else if value == 2 {
            Ok(Weekday::Monday)
        } else if value == 3 {
            Ok(Weekday::Tuesday)
        } else if value == 4 {
            Ok(Weekday::Wednesday)
        } else if value == 5 {
            Ok(Weekday::Thursday)
        } else if value == 6 {
            Ok(Weekday::Friday)
        } else if value == 7 {
            Ok(Weekday::Saturday)
        } else {
            Err(value)
        }
    }
}

impl Month {
    /// The month numbered `value`; gives `value` back when it names none.
    pub fn try_from(value: u8) -> (r: Result<Month, u8>)
        ensures
            r == (match spec_month(value) {
                Some(m) => Ok(m),
                None => Err(value),
            }),
    {
        if value == 1 {
            Ok(Month::Jan)
        } else if value == 2 {
            Ok(Month::Feb)
        } else if value == 3 {
            Ok(Month::Mar)
        } else if value == 4 {
            Ok(Month::Apr)
        } else if value == 5 {
            Ok(Month::May)
        } else if value == 6 {
            Ok(Month::Jun)
        } else if value == 7 {
            Ok(Month::Jul)
        } else if value == 8 {
            Ok(Month::Aug)
        } else if value == 9 {
            Ok(Month::Sep)
        } else if value == 10 {
            Ok(Month::Oct)
        } else if value == 11 {
            Ok(Month::Nov)
        } else if value == 12 {
            Ok(Month::Dec)
        } else {
            Err(value)
        }
    }
}

/// A date and time as the clock reports it, unchecked.
#[derive(Clone, Copy, Debug, PartialEq, Eq, Structural)]
pub struct DateTime {
    pub seconds: u8,
    pub minutes: u8,
    pub hours: u8,
    pub weekday: Weekday,
    pub day_of_month: u8,
    pub month: Month,
    /// The best guess at the full year.
    pub year: u16,
}

/// The year that the registers `regs` give: the century register (or 20 when the firmware
/// reports none) times 100, plus the year register.
pub open spec fn spec_year(regs: Seq<u8>, century_enabled: bool) -> int {
    (if century_enabled {
        regs[0x32] as int
    } else {
        20
    }) * 100 + regs[0x09]
}

impl Cmos {
    /// The CMOS through its standard ports.
    pub fn new() -> (r: Cmos)
        ensures
            r.register_number.port == 0x70,
            r.config.port == 0x71,
    {
        Cmos { register_number: PortGeneric::new(0x70), config: PortGeneric::new(0x71) }
    }

    /// The value to write back to status register B, which read `statb`, to put the clock in
    /// binary mode (bit 2) and 24-hour mode (bit 1).
    pub fn binary_24_hour_status(statb: u8) -> (r: u8)
        ensures
            r == statb | 6,
    {
        let r = statb | 4 | 2;
        assert(statb | 4 | 2 == statb | 6) by (bit_vector);
        r
    }

    /// The full year from the register values `regs` (register `i` is `regs[i]`);
    /// `century_enabled` tells whether the firmware reports a century register.
    pub fn get_year(&self, regs: &[u8], century_enabled: bool) -> (r: u16)
        requires
            regs@.len() >= CMOS_REGISTERS,
        ensures
            r == spec_year(regs@, century_enabled),
    {
        let year = regs[0x09];
        let century = if century_enabled {
            regs[0x32]
        } else {
            20
        };
        (century as u16) * 100 + (year as u16)
    }

    /// The date and time from the register values `regs`.
    pub fn get_datetime(&self, regs: &[u8], century_enabled: bool) -> (r: DateTime)
        requires
            regs@.len() >= CMOS_REGISTERS,
            spec_weekday(regs@[0x06]) is Some,
            spec_month(regs@[0x08]) is Some,
        ensures
            r.seconds == regs@[0x00],
            r.minutes == regs@[0x02],
            r.hours == regs@[0x04],
            Some(r.weekday) == spec_weekday(regs@[0x06]),
            r.day_of_month == regs@[0x07],
            Some(r.month) == spec_month(regs@[0x08]),
            r.year == spec_year(regs@, century_enabled),
    {
        let weekday = match Weekday::try_from(regs[0x06]) {
            Ok(d) => d,
            Err(_) => Weekday::Sunday,
        };
        let month = match Month::try_from(regs[0x08]) {
            Ok(m) => m,
            Err(_) => Month::Jan,
        };
        DateTime {
            seconds: regs[0x00],
            minutes: regs[0x02],
            hours: regs[0x04],
            weekday,
            day_of_month: regs[0x07],
            month,
            year: self.get_year(regs, century_enabled),
        }
    }
}

/// The decimal digit `d`.
pub open spec fn digit_char(d: int) -> char {
    (0x30 + d) as char
}

/// `n` in decimal, without leading zeros.
pub open spec fn decimal(n: nat) -> Seq<char>
    decreases n,
{
    if n < 10 {
        seq![digit_char(n as int)]
    } else {
        decimal(n / 10).push(digit_char((n % 10) as int))
    }
}

/// `n` in decimal, with a leading zero below ten.
pub open spec fn two_digits(n: nat) -> Seq<char> {
    if n < 10 {
        seq!['0', digit_char(n as int)]
    } else {
        decimal(n)
    }
}

/// The name of a weekday.
pub open spec fn weekday_name(d: Weekday) -> Seq<char> {
    match d {
        Weekday::Sunday => "Sunday"@,
        Weekday::Monday => "Monday"@,
        Weekday::Tuesday => "Tuesday"@,
        Weekday::Wednesday => "Wednesday"@,
        Weekday::Thursday => "Thursday"@,
        Weekday::Friday => "Friday"@,
        Weekday::Saturday => "Saturday"@,
    }
}

/// The short name of a month.
pub open spec fn month_name(m: Month) -> Seq<char> {
    match m {
        Month::Jan => "Jan"@,
        Month::Feb => "Feb"@,
        Month::Mar => "Mar"@,
        Month::Apr => "Apr"@,
        Month::May => "May"@,
        Month::Jun => "Jun"@,
        Month::Jul => "Jul"@,
        Month::Aug => "Aug"@,
        Month::Sep => "Sep"@,
        Month::Oct => "Oct"@,
        Month::Nov => "Nov"@,
        Month::Dec => "Dec"@,
    }
}

/// A date and time as text, such as `21:40:14 Monday, 8 Jun, 2026`: the hour, the minutes
/// and seconds in two digits, the weekday, the day, the month and the year.
pub open spec fn datetime_text(t: DateTime) -> Seq<char> {
    decimal(t.hours as nat) + ":"@ + two_digits(t.minutes as nat) + ":"@ + two_digits(t.seconds as nat) + " "@
        + weekday_name(t.weekday) + ", "@ + decimal(t.day_of_month as nat) + " "@ + month_name(t.month)
        + ", "@ + decimal(t.year as nat)
}

fn digit_str(d: u16) -> (r: &'static str)
    requires
        d < 10,
    ensures
        r@ == seq![digit_char(d as int)],
{
    if d == 0 {
        proof { reveal_strlit("0"); }
        "0"
    } else if d == 1 {
        proof { reveal_strlit("1"); }
        "1"
    } else if d == 2 {
        proof { reveal_strlit("2"); }
        "2"
    } else if d == 3 {
        proof { reveal_strlit("3"); }
        "3"
    } else if d == 4 {
        proof { reveal_strlit("4"); }
        "4"
    } else if d == 5 {
        proof { reveal_strlit("5"); }
        "5"
    } else if d == 6 {
        proof { reveal_strlit("6"); }
        "6"
    } else if d == 7 {
        proof { reveal_strlit("7"); }
        "7"
    } else if d == 8 {
        proof { reveal_strlit("8"); }
        "8"
    } else {
        proof { reveal_strlit("9"); }
        "9"
    }
}

fn append_decimal(out: &mut String, n: u16)
    ensures
        final(out)@ == old(out)@ + decimal(n as nat),
    decreases n,
{
    if n >= 10 {
        append_decimal(out, n / 10);
    }
    out.append(digit_str(n % 10));
    proof {
        if n >= 10 {
            assert(old(out)@ + decimal(n as nat) =~= old(out)@ + decimal((n / 10) as nat) + seq![digit_char((n % 10) as int)]);
        } else {
            assert(n % 10 == n);
        }
    }
}

fn append_two_digits(out: &mut String, n: u16)
    ensures
        final(out)@ == old(out)@ + two_digits(n as nat),
{
    if n < 10 {
        proof { reveal_strlit("0"); }
        out.append("0");
        out.append(digit_str(n));
        assert(final(out)@ =~= old(out)@ + two_digits(n as nat)) by {
            assert(seq!['0'] + seq![digit_char(n as int)] =~= seq!['0', digit_char(n as int)]);
        }
    } else {
        append_decimal(out, n);
    }
}

impl Weekday {
    /// The name of the weekday.
    pub fn name(self) -> (r: &'static str)
        ensures
            r@ == weekday_name(self),
    {
        match self {
            Weekday::Sunday => "Sunday",
            Weekday::Monday => "Monday",
            Weekday::Tuesday => "Tuesday",
            Weekday::Wednesday => "Wednesday",
            Weekday::Thursday => "Thursday",
            Weekday::Friday => "Friday",
            Weekday::Saturday => "Saturday",
        }
    }
}

impl Month {
    /// The short name of the month.
    pub fn name(self) -> (r: &'static str)
        ensures
            r@ == month_name(self),
    {
        match self {
            Month::Jan => "Jan",
            Month::Feb => "Feb",
            Month::Mar => "Mar",
            Month::Apr => "Apr",
            Month::May => "May",
            Month::Jun => "Jun",
            Month::Jul => "Jul",
            Month::Aug => "Aug",
            Month::Sep => "Sep",
            Month::Oct => "Oct",
            Month::Nov => "Nov",
            Month::Dec => "Dec",
        }
    }
}

impl DateTime {
    /// The date and time as text (see `datetime_text`).
    pub fn to_string(&self) -> (r: String)
        ensures
            r@ == datetime_text(*self),
    {
        let mut out = String::new();
        append_decimal(&mut out, self.hours as u16);
        out.append(":");
        append_two_digits(&mut out, self.minutes as u16);
        out.append(":");
        append_two_digits(&mut out, self.seconds as u16);
        out.append(" ");
        out.append(self.weekday.name());
        out.append(", ");
        append_decimal(&mut out, self.day_of_month as u16);
        out.append(" ");
        out.append(self.month.name());
        out.append(", ");
        append_decimal(&mut out, self.year);
        assert(out@ =~= datetime_text(*self));
        out
    }
}


/// The number of month `m` in the clock's month register: January is 1, December 12.
pub open spec fn month_number(m: Month) -> u8 {
    match m {
        Month::Jan => 1,
        Month::Feb => 2,
        Month::Mar => 3,
        Month::Apr => 4,
        Month::May => 5,
        Month::Jun => 6,
        Month::Jul => 7,
        Month::Aug => 8,
        Month::Sep => 9,
        Month::Oct => 10,
        Month::Nov => 11,
        Month::Dec => 12,
    }
}

/// The number of weekday `d` in the clock's weekday register: Sunday is 1, Saturday 7.
pub open spec fn weekday_number(d: Weekday) -> u8 {
    match d {
        Weekday::Sunday => 1,
        Weekday::Monday => 2,
        Weekday::Tuesday => 3,
        Weekday::Wednesday => 4,
        Weekday::Thursday => 5,
        Weekday::Friday => 6,
        Weekday::Saturday => 7,
    }
}

/// Law: the month register holds 1 to 12, the value `v` names the `v`-th month, and every
/// month is read back from its number.
pub proof fn lemma_month_numbers(v: u8, m: Month)
    ensures
        spec_month(v) is Some <==> 1 <= v <= 12,
        spec_month(v) matches Some(n) ==> month_number(n) == v,
        spec_month(month_number(m)) == Some(m),
{
}

/// Law: the weekday register holds 1 to 7, the value `v` names the `v`-th day of the week
/// counted from Sunday, and every weekday is read back from its number.
pub proof fn lemma_weekday_numbers(v: u8, d: Weekday)
    ensures
        spec_weekday(v) is Some <==> 1 <= v <= 7,
        spec_weekday(v) matches Some(n) ==> weekday_number(n) == v,
        spec_weekday(weekday_number(d)) == Some(d),
{
}


/// Law: the name shown for the month numbered `n` is the English abbreviation of the `n`-th
/// month.
pub proof fn lemma_month_names(m: Month)
    ensures
        month_number(m) == 1 ==> month_name(m) == seq!['J', 'a', 'n'],
        month_number(m) == 2 ==> month_name(m) == seq!['F', 'e', 'b'],
        month_number(m) == 3 ==> month_name(m) == seq!['M', 'a', 'r'],
        month_number(m) == 4 ==> month_name(m) == seq!['A', 'p', 'r'],
        month_number(m) == 5 ==> month_name(m) == seq!['M', 'a', 'y'],
        month_number(m) == 6 ==> month_name(m) == seq!['J', 'u', 'n'],
        month_number(m) == 7 ==> month_name(m) == seq!['J', 'u', 'l'],
        month_number(m) == 8 ==> month_name(m) == seq!['A', 'u', 'g'],
        month_number(m) == 9 ==> month_name(m) == seq!['S', 'e', 'p'],
        month_number(m) == 10 ==> month_name(m) == seq!['O', 'c', 't'],
        month_number(m) == 11 ==> month_name(m) == seq!['N', 'o', 'v'],
        month_number(m) == 12 ==> month_name(m) == seq!['D', 'e', 'c'],
{
    reveal_strlit("Jan");
    reveal_strlit("Feb");
    reveal_strlit("Mar");
    reveal_strlit("Apr");
    reveal_strlit("May");
    reveal_strlit("Jun");
    reveal_strlit("Jul");
    reveal_strlit("Aug");
    reveal_strlit("Sep");
    reveal_strlit("Oct");
    reveal_strlit("Nov");
    reveal_strlit("Dec");
    match m {
        Month::Jan => assert(month_name(m) =~= seq!['J', 'a', 'n']),
        Month::Feb => assert(month_name(m) =~= seq!['F', 'e', 'b']),
        Month::Mar => assert(month_name(m) =~= seq!['M', 'a', 'r']),
        Month::Apr => assert(month_name(m) =~= seq!['A', 'p', 'r']),
        Month::May => assert(month_name(m) =~= seq!['M', 'a', 'y']),
        Month::Jun => assert(month_name(m) =~= seq!['J', 'u', 'n']),
        Month::Jul => assert(month_name(m) =~= seq!['J', 'u', 'l']),
        Month::Aug => assert(month_name(m) =~= seq!['A', 'u', 'g']),
        Month::Sep => assert(month_name(m) =~= seq!['S', 'e', 'p']),
        Month::Oct => assert(month_name(m) =~= seq!['O', 'c', 't']),
        Month::Nov => assert(month_name(m) =~= seq!['N', 'o', 'v']),
        Month::Dec => assert(month_name(m) =~= seq!['D', 'e', 'c']),
    }
}

/// Law: the name shown for the weekday numbered `n` is the English name of the `n`-th day
/// of the week counted from Sunday.
pub proof fn lemma_weekday_names(d: Weekday)
    ensures
        weekday_number(d) == 1 ==> weekday_name(d) == seq!['S', 'u', 'n', 'd', 'a', 'y'],
        weekday_number(d) == 2 ==> weekday_name(d) == seq!['M', 'o', 'n', 'd', 'a', 'y'],
        weekday_number(d) == 3 ==> weekday_name(d) == seq!['T', 'u', 'e', 's', 'd', 'a', 'y'],
        weekday_number(d) == 4 ==> weekday_name(d) == seq!['W', 'e', 'd', 'n', 'e', 's', 'd', 'a', 'y'],
        weekday_number(d) == 5 ==> weekday_name(d) == seq!['T', 'h', 'u', 'r', 's', 'd', 'a', 'y'],
        weekday_number(d) == 6 ==> weekday_name(d) == seq!['F', 'r', 'i', 'd', 'a', 'y'],
        weekday_number(d) == 7 ==> weekday_name(d) == seq!['S', 'a', 't', 'u', 'r', 'd', 'a', 'y'],
{
    reveal_strlit("Sunday");
    reveal_strlit("Monday");
    reveal_strlit("Tuesday");
    reveal_strlit("Wednesday");
    reveal_strlit("Thursday");
    reveal_strlit("Friday");
    reveal_strlit("Saturday");
    match d {
        Weekday::Sunday => assert(weekday_name(d) =~= seq!['S', 'u', 'n', 'd', 'a', 'y']),
        Weekday::Monday => assert(weekday_name(d) =~= seq!['M', 'o', 'n', 'd', 'a', 'y']),
        Weekday::Tuesday => assert(weekday_name(d) =~= seq!['T', 'u', 'e', 's', 'd', 'a', 'y']),
        Weekday::Wednesday => assert(weekday_name(d) =~= seq!['W', 'e', 'd', 'n', 'e', 's', 'd', 'a', 'y']),
        Weekday::Thursday => assert(weekday_name(d) =~= seq!['T', 'h', 'u', 'r', 's', 'd', 'a', 'y']),
        Weekday::Friday => assert(weekday_name(d) =~= seq!['F', 'r', 'i', 'd', 'a', 'y']),
        Weekday::Saturday => assert(weekday_name(d) =~= seq!['S', 'a', 't', 'u', 'r', 'd', 'a', 'y']),
    }
}

} // verus!
