//! Protocol core of the PCF8563 real-time clock.
//!
//! The clock keeps seconds, minutes, hours, days, weekdays, months and years
//! in registers of two decimal digits each, four bits a digit. The functions
//! here make the bytes that set the clock and its alarm, and read dates and
//! times out of the bytes that the clock gives. Whether a day exists in a
//! month, and on which weekday it falls, is asked of the `time` crate.

use vstd::prelude::*;

verus! {

/// The bus address of the clock.
pub const SLAVE_ADDRESS: u8 = 0x51;

/// Register of the first control and status byte.
pub const REGISTER_CONTROL_STATUS_1: u8 = 0x00;

/// Register of the second control and status byte.
pub const REGISTER_CONTROL_STATUS_2: u8 = 0x01;

/// Register of the seconds; minutes and hours follow.
pub const REGISTER_SECOND: u8 = 0x02;

/// Register of the minutes.
pub const REGISTER_MINUTE: u8 = 0x03;

/// Register of the hours.
pub const REGISTER_HOUR: u8 = 0x04;

/// Register of the day; weekday, month and year follow.
pub const REGISTER_DAY: u8 = 0x05;

/// Register of the alarm minute; alarm hour, day and weekday follow.
pub const REGISTER_ALARM_MINUTE: u8 = 0x09;

/// Register of the clock output.
pub const REGISTER_CLOCK_OUTPUT: u8 = 0x0D;

/// Flag of the second control byte: the alarm went off.
pub const MASK_ALARM_FLAG: u8 = 0x08;

/// Flag of the second control byte: the alarm raises the interrupt.
pub const MASK_ALARM_INTERRUPT_ENABLED: u8 = 0x02;

/// Flag of the clock output register: the square wave is on.
pub const MASK_SQUARE_WAVE_ENABLED: u8 = 0x80;

/// Flag of the month register: the year is one of the 1900s.
pub const MASK_CENTURY: u8 = 0x80;

/// The digits of the month register.
pub const MASK_MONTH: u8 = 0b00011111;

/// The digit of the weekday register.
pub const MASK_WEEKDAY: u8 = 0b00000111;

/// The digits of the day register.
pub const MASK_DAY: u8 = 0b00111111;

/// The digits of the hour register.
pub const MASK_HOUR: u8 = 0b00111111;

/// The digits of the minute register.
pub const MASK_MINUTE: u8 = 0b01111111;

/// The digits of the second register.
pub const MASK_SECOND: u8 = 0b01111111;

/// Value of an alarm register whose part of the alarm is off.
pub const ALARM_DISABLED: u8 = 0x80;

#[verifier::external_type_specification]
#[verifier::external_body]
pub struct ExComponentRange(time::error::ComponentRange);

/// An error of the clock driver. `E` is the error of the bus.
#[derive(Debug)]
pub enum Error<E> {
    /// A bus transfer failed.
    Bus(E),
    /// The clock holds a number that is no part of a date or time.
    Time(time::error::ComponentRange),
    /// The clock holds a weekday that does not exist or is not the weekday
    /// of its date.
    InvalidDateTime,
}

impl<E> core::convert::From<E> for Error<E> {
    fn from(error: E) -> (wrapped: Self) {
        Error::Bus(error)
    }
}

impl<E> vstd::std_specs::convert::FromSpecImpl<E> for Error<E> {
    open spec fn obeys_from_spec() -> bool {
        true
    }

    open spec fn from_spec(error: E) -> Self {
        Error::Bus(error)
    }
}

/// The register value of the number `n`: its tens in the high four bits, its
/// units in the low four.
pub open spec fn bcd(n: int) -> int {
    n / 10 * 16 + n % 10
}

/// The number that the register value `n` stands for: ten times its high four
/// bits and its low four bits.
pub open spec fn decimal(n: int) -> int {
    n / 16 * 10 + n % 16
}

/// Turns a number into the register value that stands for it.
pub fn dec_to_bcd(n: u8) -> (digits: u8)
    requires
        n <= 159,
    ensures
        digits == bcd(n as int),
{
    (n / 10 * 16) + (n % 10)
}

/// Turns a register value into the number that it stands for.
pub fn bcd_to_dec(n: u8) -> (number: u8)
    ensures
        number == decimal(n as int),
{
    (n / 16 * 10) + (n % 16)
}

/// A number that was turned into a register value comes back unchanged.
pub proof fn lemma_bcd_round_trip(n: int)
    requires
        0 <= n <= 159,
    ensures
        decimal(bcd(n)) == n,
{
}

/// A day of the week.
#[derive(Clone, Copy, Debug, PartialEq, Eq, Structural)]
pub enum Weekday {
    Sunday,
    Monday,
    Tuesday,
    Wednesday,
    Thursday,
    Friday,
    Saturday,
}

impl Weekday {
    /// Number of days from Sunday to this day.
    pub open spec fn number(self) -> int {
        match self {
            Weekday::Sunday => 0,
            Weekday::Monday => 1,
            Weekday::Tuesday => 2,
            Weekday::Wednesday => 3,
            Weekday::Thursday => 4,
            Weekday::Friday => 5,
            Weekday::Saturday => 6,
        }
    }

    /// Number of days from Sunday to this day.
    pub fn number_days_from_sunday(self) -> (number: u8)
        ensures
            number == self.number(),
    {
        match self {
            Weekday::Sunday => 0,
            Weekday::Monday => 1,
            Weekday::Tuesday => 2,
            Weekday::Wednesday => 3,
            Weekday::Thursday => 4,
            Weekday::Friday => 5,
            Weekday::Saturday => 6,
        }
    }
}

/// The day of the week that the clock counts as `weekday`.
pub fn parse_weekday<E>(weekday: u8) -> (parsed: Result<Weekday, Error<E>>)
    ensures
        weekday <= 6 ==> (parsed matches Ok(day) && day.number() == weekday),
        weekday > 6 ==> parsed is Err && parsed->Err_0 is InvalidDateTime,
{
    match weekday {
        0 => Ok(Weekday::Sunday),
        1 => Ok(Weekday::Monday),
        2 => Ok(Weekday::Tuesday),
        3 => Ok(Weekday::Wednesday),
        4 => Ok(Weekday::Thursday),
        5 => Ok(Weekday::Friday),
        6 => Ok(Weekday::Saturday),
        _ => Err(Error::InvalidDateTime),
    }
}

/// Whether `year` has a 29th of February.
pub open spec fn is_leap_year(year: int) -> bool {
    year % 4 == 0 && (year % 100 != 0 || year % 400 == 0)
}

/// Number of days of the month `month` of `year`.
pub open spec fn days_in_month(year: int, month: int) -> int {
    if month == 2 {
        if is_leap_year(year) {
            29
        } else {
            28
        }
    } else if month == 4 || month == 6 || month == 9 || month == 11 {
        30
    } else {
        31
    }
}

/// Whether the calendar has the day `day` of the month `month` of `year`.
pub open spec fn is_calendar_date(year: int, month: int, day: int) -> bool {
    &&& -9999 <= year <= 9999
    &&& 1 <= month <= 12
    &&& 1 <= day <= days_in_month(year, month)
}

/// Whether a day has the hour, minute and second.
pub open spec fn is_clock_time(hour: int, minute: int, second: int) -> bool {
    0 <= hour < 24 && 0 <= minute < 60 && 0 <= second < 60
}

/// Number of days from Sunday to the weekday of a day of the calendar, as
/// `time::Date::weekday` finds it.
pub uninterp spec fn calendar_weekday(year: int, month: int, day: int) -> int;

/// Asks `time::Month::try_from` whether `month` is the number of a month.
/// It takes 1 to 12, and answers any other number with an error.
#[verifier::external_body]
fn month_from_number(month: u8) -> (checked: Result<(), time::error::ComponentRange>)
    ensures
        checked is Ok <==> 1 <= month <= 12,
{
    match time::Month::try_from(month) {
        Ok(_) => Ok(()),
        Err(error) => Err(error),
    }
}

/// Asks `time::Date::from_calendar_date` whether the month has the day. For
/// a year within its reach it takes the days from 1 to the length of the
/// month, which is 29 for a February of a leap year, and answers any other
/// day with an error.
#[verifier::external_body]
fn date_from_calendar_date(year: i32, month: u8, day: u8) -> (checked: Result<(), time::error::ComponentRange>)
    requires
        -9999 <= year <= 9999,
        1 <= month <= 12,
    ensures
        checked is Ok <==> 1 <= day <= days_in_month(year as int, month as int),
{
    match time::Month::try_from(month) {
        Ok(month) => match time::Date::from_calendar_date(year, month, day) {
            Ok(_) => Ok(()),
            Err(error) => Err(error),
        },
        Err(error) => Err(error),
    }
}

/// Asks `time::Date::weekday` for the weekday of a day of the calendar, and
/// `time::Weekday::number_days_from_sunday` for its number, which is 0 for a
/// Sunday and at most 6.
#[verifier::external_body]
fn weekday_of_calendar_date(year: i32, month: u8, day: u8) -> (number: u8)
    requires
        is_calendar_date(year as int, month as int, day as int),
    ensures
        number == calendar_weekday(year as int, month as int, day as int),
        number <= 6,
{
    match time::Month::try_from(month) {
        Ok(month) => match time::Date::from_calendar_date(year, month, day) {
            Ok(date) => date.weekday().number_days_from_sunday(),
            Err(_) => 0,
        },
        Err(_) => 0,
    }
}

/// Asks `time::Time::from_hms` whether a day has the time. It takes hours
/// below 24 and minutes and seconds below 60, and answers anything else with
/// an error.
#[verifier::external_body]
fn time_from_hms(hour: u8, minute: u8, second: u8) -> (checked: Result<(), time::error::ComponentRange>)
    ensures
        checked is Ok <==> is_clock_time(hour as int, minute as int, second as int),
{
    match time::Time::from_hms(hour, minute, second) {
        Ok(_) => Ok(()),
        Err(error) => Err(error),
    }
}

/// A day of the calendar.
#[derive(Clone, Copy, Debug, PartialEq, Eq)]
pub struct Date {
    year: i32,
    month: u8,
    day: u8,
}

/// The year, month and day of a date.
pub struct DateView {
    pub year: int,
    pub month: int,
    pub day: int,
}

impl View for Date {
    type V = DateView;

    closed spec fn view(&self) -> DateView {
        DateView { year: self.year as int, month: self.month as int, day: self.day as int }
    }
}

impl Date {
    #[verifier::type_invariant]
    spec fn on_calendar(self) -> bool {
        is_calendar_date(self.year as int, self.month as int, self.day as int)
    }

    /// The day `day` of the month `month` of `year`, if the calendar has that
    /// day. The error says which number is out of its range.
    pub fn from_calendar_date(year: i32, month: u8, day: u8) -> (made: Result<Date, time::error::ComponentRange>)
        requires
            -9999 <= year <= 9999,
        ensures
            made is Ok <==> is_calendar_date(year as int, month as int, day as int),
            made matches Ok(date) ==> date@ == (DateView {
                year: year as int,
                month: month as int,
                day: day as int,
            }),
    {
        match month_from_number(month) {
            Err(error) => Err(error),
            Ok(()) => match date_from_calendar_date(year, month, day) {
                Err(error) => Err(error),
                Ok(()) => Ok(Date { year, month, day }),
            },
        }
    }

    /// The year.
    pub fn year(&self) -> (year: i32)
        ensures
            year == self@.year,
            is_calendar_date(self@.year, self@.month, self@.day),
    {
        proof {
            use_type_invariant(self);
        }
        self.year
    }

    /// The month, from 1 to 12.
    pub fn month(&self) -> (month: u8)
        ensures
            month == self@.month,
    {
        self.month
    }

    /// The day of the month, from 1 on.
    pub fn day(&self) -> (day: u8)
        ensures
            day == self@.day,
    {
        self.day
    }

    /// Number of days from Sunday to the weekday of the date.
    pub fn weekday(&self) -> (number: u8)
        ensures
            number == calendar_weekday(self@.year, self@.month, self@.day),
            number <= 6,
    {
        proof {
            use_type_invariant(self);
        }
        weekday_of_calendar_date(self.year, self.month, self.day)
    }
}

/// A time of day, to the second.
#[derive(Clone, Copy, Debug, PartialEq, Eq)]
pub struct Time {
    hour: u8,
    minute: u8,
    second: u8,
}

/// The hour, minute and second of a time.
pub struct TimeView {
    pub hour: int,
    pub minute: int,
    pub second: int,
}

impl View for Time {
    type V = TimeView;

    closed spec fn view(&self) -> TimeView {
        TimeView {
            hour: self.hour as int,
            minute: self.minute as int,
            second: self.second as int,
        }
    }
}

impl Time {
    #[verifier::type_invariant]
    spec fn on_clock(self) -> bool {
        is_clock_time(self.hour as int, self.minute as int, self.second as int)
    }

    /// The time with the hour, minute and second, if a day has that time.
    /// The error says which number is out of its range.
    pub fn from_hms(hour: u8, minute: u8, second: u8) -> (made: Result<Time, time::error::ComponentRange>)
        ensures
            made is Ok <==> is_clock_time(hour as int, minute as int, second as int),
            made matches Ok(time) ==> time@ == (TimeView {
                hour: hour as int,
                minute: minute as int,
                second: second as int,
            }),
    {
        match time_from_hms(hour, minute, second) {
            Err(error) => Err(error),
            Ok(()) => Ok(Time { hour, minute, second }),
        }
    }

    /// The hour, below 24.
    pub fn hour(&self) -> (hour: u8)
        ensures
            hour == self@.hour,
            is_clock_time(self@.hour, self@.minute, self@.second),
    {
        proof {
            use_type_invariant(self);
        }
        self.hour
    }

    /// The minute, below 60.
    pub fn minute(&self) -> (minute: u8)
        ensures
            minute == self@.minute,
    {
        self.minute
    }

    /// The second, below 60.
    pub fn second(&self) -> (second: u8)
        ensures
            second == self@.second,
    {
        self.second
    }
}

/// The year that the month and year registers stand for: the century flag of
/// the month register chooses the 1900s over the 2000s.
pub open spec fn register_year(month_bcd: u8, year_bcd: u8) -> int {
    decimal(year_bcd as int) + if month_bcd & MASK_CENTURY != 0 {
        1900int
    } else {
        2000int
    }
}

/// Ends the reading of a date: `date` is what the registers hold, `weekday`
/// the weekday that the clock counts, `actual` the number of days from Sunday
/// to the weekday on which the date falls. The date is good if the two
/// agree.
pub fn confirm_weekday<E>(date: Date, weekday: Weekday, actual: u8) -> (confirmed: Result<
    Date,
    Error<E>,
>)
    ensures
        actual == weekday.number() ==> confirmed == Ok::<Date, Error<E>>(date),
        actual != weekday.number() ==> confirmed is Err && confirmed->Err_0 is InvalidDateTime,
{
    if actual != weekday.number_days_from_sunday() {
        return Err(Error::InvalidDateTime);
    }
    Ok(date)
}

/// Reads a date out of the day, weekday, month and year registers, in this
/// order. A month or a day that the calendar does not have is an error of
/// kind `Time`, the month first; a weekday that does not exist, or on which
/// the date does not fall, one of kind `InvalidDateTime`.
pub fn parse_date<E>(buf: &[u8]) -> (parsed: Result<Date, Error<E>>)
    requires
        buf@.len() >= 4,
    ensures
        ({
            let day = decimal((buf@[0] & MASK_DAY) as int);
            let weekday = decimal((buf@[1] & MASK_WEEKDAY) as int);
            let month = decimal((buf@[2] & MASK_MONTH) as int);
            let year = register_year(buf@[2], buf@[3]);
            if !(1 <= month <= 12) {
                parsed is Err && parsed->Err_0 is Time
            } else if weekday > 6 {
                parsed is Err && parsed->Err_0 is InvalidDateTime
            } else if !(1 <= day <= days_in_month(year, month)) {
                parsed is Err && parsed->Err_0 is Time
            } else if calendar_weekday(year, month, day) != weekday {
                parsed is Err && parsed->Err_0 is InvalidDateTime
            } else {
                parsed matches Ok(date) && date@ == (DateView { year, month, day })
            }
        }),
{
    let day = bcd_to_dec(buf[0] & MASK_DAY);
    let weekday = bcd_to_dec(buf[1] & MASK_WEEKDAY);

    let month_bcd = buf[2];
    let year_bcd = buf[3];

    let month = bcd_to_dec(month_bcd & MASK_MONTH);
    let year = bcd_to_dec(year_bcd) as i32 + if month_bcd & MASK_CENTURY != 0 {
        1900
    } else {
        2000
    };

    match month_from_number(month) {
        Err(error) => {
            return Err(Error::Time(error));
        },
        Ok(()) => {},
    }
    let weekday = match parse_weekday::<E>(weekday) {
        Err(error) => {
            return Err(error);
        },
        Ok(weekday) => weekday,
    };

    let date = match Date::from_calendar_date(year, month, day) {
        Err(error) => {
            return Err(Error::Time(error));
        },
        Ok(date) => date,
    };

    let actual = date.weekday();
    confirm_weekday(date, weekday, actual)
}

/// Reads a time out of the second, minute and hour registers, in this order.
/// A number that is no hour, minute or second is an error of kind `Time`.
pub fn parse_time<E>(buf: &[u8]) -> (parsed: Result<Time, Error<E>>)
    requires
        buf@.len() >= 3,
    ensures
        ({
            let second = decimal((buf@[0] & MASK_SECOND) as int);
            let minute = decimal((buf@[1] & MASK_MINUTE) as int);
            let hour = decimal((buf@[2] & MASK_HOUR) as int);
            if is_clock_time(hour, minute, second) {
                parsed matches Ok(time) && time@ == (TimeView { hour, minute, second })
            } else {
                parsed is Err && parsed->Err_0 is Time
            }
        }),
{
    let second = bcd_to_dec(buf[0] & MASK_SECOND);
    let minute = bcd_to_dec(buf[1] & MASK_MINUTE);
    let hour = bcd_to_dec(buf[2] & MASK_HOUR);

    match Time::from_hms(hour, minute, second) {
        Err(error) => Err(Error::Time(error)),
        Ok(time) => Ok(time),
    }
}

/// Reads a date and a time out of the seven registers from the seconds on: the
/// time first, then the date.
pub fn parse_datetime<E>(buf: &[u8; 7]) -> (parsed: Result<(Date, Time), Error<E>>)
    ensures
        parsed matches Ok(both) ==> {
            &&& both.1@ == (TimeView {
                hour: decimal((buf@[2] & MASK_HOUR) as int),
                minute: decimal((buf@[1] & MASK_MINUTE) as int),
                second: decimal((buf@[0] & MASK_SECOND) as int),
            })
            &&& both.0@ == (DateView {
                year: register_year(buf@[5], buf@[6]),
                month: decimal((buf@[5] & MASK_MONTH) as int),
                day: decimal((buf@[3] & MASK_DAY) as int),
            })
        },
        parsed is Ok <==> {
            &&& is_clock_time(
                decimal((buf@[2] & MASK_HOUR) as int),
                decimal((buf@[1] & MASK_MINUTE) as int),
                decimal((buf@[0] & MASK_SECOND) as int),
            )
            &&& is_calendar_date(
                register_year(buf@[5], buf@[6]),
                decimal((buf@[5] & MASK_MONTH) as int),
                decimal((buf@[3] & MASK_DAY) as int),
            )
            &&& decimal((buf@[4] & MASK_WEEKDAY) as int) <= 6
            &&& calendar_weekday(
                register_year(buf@[5], buf@[6]),
                decimal((buf@[5] & MASK_MONTH) as int),
                decimal((buf@[3] & MASK_DAY) as int),
            ) == decimal((buf@[4] & MASK_WEEKDAY) as int)
        },
{
    let time_registers = [buf[0], buf[1], buf[2]];
    let date_registers = [buf[3], buf[4], buf[5], buf[6]];
    let time = match parse_time::<E>(time_registers.as_slice()) {
        Err(error) => {
            return Err(error);
        },
        Ok(time) => time,
    };
    let date = match parse_date::<E>(date_registers.as_slice()) {
        Err(error) => {
            return Err(error);
        },
        Ok(date) => date,
    };
    Ok((date, time))
}

/// Which parts of the alarm are on, and when each goes off.
#[derive(Debug, Clone, Copy)]
pub struct AlarmConfig {
    pub minute: Option<u8>,
    pub hour: Option<u8>,
    pub day: Option<u8>,
    pub weekday: Option<Weekday>,
}

impl Default for AlarmConfig {
    /// The alarm with every part off.
    fn default() -> (alarm: Self)
        ensures
            alarm.minute is None,
            alarm.hour is None,
            alarm.day is None,
            alarm.weekday is None,
    {
        AlarmConfig { minute: None, hour: None, day: None, weekday: None }
    }
}

/// The value of an alarm register for one part of the alarm.
pub open spec fn alarm_register(part: Option<u8>) -> int {
    match part {
        Some(number) => bcd(number as int),
        None => ALARM_DISABLED as int,
    }
}

fn alarm_part(part: Option<u8>) -> (value: u8)
    requires
        part matches Some(number) ==> number <= 159,
    ensures
        value == alarm_register(part),
{
    match part {
        Some(number) => dec_to_bcd(number),
        None => ALARM_DISABLED,
    }
}

/// The bytes that put the clock into its state after power-up: the address
/// of the first register, and the sixteen registers.
pub fn reset() -> (frame: [u8; 16])
    ensures
        frame@ == seq![
            REGISTER_CONTROL_STATUS_1,
            0x00u8,
            0x00u8,
            0x01u8,
            0x01u8,
            0x01u8,
            0x01u8,
            0x01u8,
            0x01u8,
            0x01u8,
            ALARM_DISABLED,
            ALARM_DISABLED,
            ALARM_DISABLED,
            ALARM_DISABLED,
            0x00u8,
            0x00u8,
        ],
{
    let frame = [
        REGISTER_CONTROL_STATUS_1,
        0x00,  // control/status 1
        0x00,  // control/status 2
        0x01,  // second
        0x01,  // minute
        0x01,  // hour
        0x01,  // day
        0x01,  // weekday
        0x01,  // month + century
        0x01,  // year
        ALARM_DISABLED,  // minute alarm
        ALARM_DISABLED,  // hour alarm
        ALARM_DISABLED,  // day alarm
        ALARM_DISABLED,  // weekday alarm
        0x00,  // clock output
        0x00,  // timer
    ];
    assert(frame@ =~= seq![
        REGISTER_CONTROL_STATUS_1,
        0x00u8,
        0x00u8,
        0x01u8,
        0x01u8,
        0x01u8,
        0x01u8,
        0x01u8,
        0x01u8,
        0x01u8,
        ALARM_DISABLED,
        ALARM_DISABLED,
        ALARM_DISABLED,
        ALARM_DISABLED,
        0x00u8,
        0x00u8,
    ]);
    frame
}

/// The bytes that set the time: the address of the seconds register, and the
/// second, minute and hour.
pub fn set_time(time: Time) -> (frame: [u8; 4])
    ensures
        frame@ == seq![
            REGISTER_SECOND,
            bcd(time@.second) as u8,
            bcd(time@.minute) as u8,
            bcd(time@.hour) as u8,
        ],
{
    let hour = time.hour();
    let frame = [
        REGISTER_SECOND,
        dec_to_bcd(time.second()),
        dec_to_bcd(time.minute()),
        dec_to_bcd(hour),
    ];
    assert(frame@ =~= seq![
        REGISTER_SECOND,
        bcd(time@.second) as u8,
        bcd(time@.minute) as u8,
        bcd(time@.hour) as u8,
    ]);
    frame
}

/// The value of the month register for a month of a year: the month, and the
/// century flag for a year before 2000.
pub open spec fn month_register(year: int, month: int) -> u8 {
    if year < 2000 {
        (bcd(month) as u8) | MASK_CENTURY
    } else {
        bcd(month) as u8
    }
}

/// The bytes that set the date to `date`, which falls on the weekday that
/// is `weekday` days from Sunday: the address of the day register, and the
/// day, weekday, month and the last two digits of the year.
pub fn date_registers(date: Date, weekday: u8) -> (frame: [u8; 5])
    requires
        date@.year >= 0,
        weekday <= 6,
    ensures
        frame@ == seq![
            REGISTER_DAY,
            bcd(date@.day) as u8,
            bcd(weekday as int) as u8,
            month_register(date@.year, date@.month),
            bcd(date@.year % 100) as u8,
        ],
{
    let year = date.year();
    let month = date.month();

    let month_bcd = if year < 2000 {
        dec_to_bcd(month) | MASK_CENTURY
    } else {
        dec_to_bcd(month)
    };

    let frame = [
        REGISTER_DAY,
        dec_to_bcd(date.day()),
        dec_to_bcd(weekday),
        month_bcd,
        dec_to_bcd((year % 100) as u8),
    ];
    assert(frame@ =~= seq![
        REGISTER_DAY,
        bcd(date@.day) as u8,
        bcd(weekday as int) as u8,
        month_register(date@.year, date@.month),
        bcd(date@.year % 100) as u8,
    ]);
    frame
}

/// The bytes that set the date: the address of the day register, and the
/// day, the weekday on which the date falls, the month and the last two
/// digits of the year.
pub fn set_date(date: Date) -> (frame: [u8; 5])
    requires
        date@.year >= 0,
    ensures
        frame@ == seq![
            REGISTER_DAY,
            bcd(date@.day) as u8,
            bcd(calendar_weekday(date@.year, date@.month, date@.day)) as u8,
            month_register(date@.year, date@.month),
            bcd(date@.year % 100) as u8,
        ],
{
    let weekday = date.weekday();
    date_registers(date, weekday)
}

/// The bytes that make the alarm raise the interrupt, and clear the flag of
/// an alarm that went off: the address of the second control register, and
/// its new value, made of the value `control_status_2` that it holds.
pub fn enable_alarm(control_status_2: u8) -> (frame: [u8; 2])
    ensures
        frame@ == seq![
            REGISTER_CONTROL_STATUS_2,
            (control_status_2 & !MASK_ALARM_FLAG) | MASK_ALARM_INTERRUPT_ENABLED,
        ],
{
    let mut control_status_2 = control_status_2;
    control_status_2 = control_status_2 & !MASK_ALARM_FLAG;
    control_status_2 = control_status_2 | MASK_ALARM_INTERRUPT_ENABLED;

    let frame = [REGISTER_CONTROL_STATUS_2, control_status_2];
    assert(frame@ =~= seq![REGISTER_CONTROL_STATUS_2, control_status_2]);
    frame
}

/// The bytes that stop the alarm from raising the interrupt: the address of
/// the second control register, and its new value, made of the value
/// `control_status_2` that it holds.
pub fn disable_alarm(control_status_2: u8) -> (frame: [u8; 2])
    ensures
        frame@ == seq![
            REGISTER_CONTROL_STATUS_2,
            control_status_2 & !MASK_ALARM_INTERRUPT_ENABLED,
        ],
{
    let control_status_2 = control_status_2 & !MASK_ALARM_INTERRUPT_ENABLED;

    let frame = [REGISTER_CONTROL_STATUS_2, control_status_2];
    assert(frame@ =~= seq![REGISTER_CONTROL_STATUS_2, control_status_2]);
    frame
}

/// Whether the alarm raises the interrupt, from the value of the second
/// control register.
pub fn is_alarm_enabled(control_status_2: u8) -> (enabled: bool)
    ensures
        enabled == (control_status_2 & MASK_ALARM_INTERRUPT_ENABLED != 0),
{
    control_status_2 & MASK_ALARM_INTERRUPT_ENABLED != 0
}

/// The bytes that set the alarm: the address of the alarm minute register,
/// and the minute, hour, day and weekday of the alarm, each switched off if
/// the alarm does not name it.
pub fn set_alarm(alarm: &AlarmConfig) -> (frame: [u8; 5])
    requires
        alarm.minute matches Some(number) ==> number <= 159,
        alarm.hour matches Some(number) ==> number <= 159,
        alarm.day matches Some(number) ==> number <= 159,
    ensures
        frame@ == seq![
            REGISTER_ALARM_MINUTE,
            alarm_register(alarm.minute) as u8,
            alarm_register(alarm.hour) as u8,
            alarm_register(alarm.day) as u8,
            (match alarm.weekday {
                Some(weekday) => bcd(weekday.number()),
                None => ALARM_DISABLED as int,
            }) as u8,
        ],
{
    let weekday = match alarm.weekday {
        Some(weekday) => dec_to_bcd(weekday.number_days_from_sunday()),
        None => ALARM_DISABLED,
    };
    let frame = [
        REGISTER_ALARM_MINUTE,
        alarm_part(alarm.minute),
        alarm_part(alarm.hour),
        alarm_part(alarm.day),
        weekday,
    ];
    assert(frame@ =~= seq![
        REGISTER_ALARM_MINUTE,
        alarm_register(alarm.minute) as u8,
        alarm_register(alarm.hour) as u8,
        alarm_register(alarm.day) as u8,
        (match alarm.weekday {
            Some(weekday) => bcd(weekday.number()),
            None => ALARM_DISABLED as int,
        }) as u8,
    ]);
    frame
}

/// A clock on a bus: its bus address, and the bus that it is reached by.
pub struct PCF8563<I2C> {
    address: u8,
    i2c: I2C,
}

impl<I2C> PCF8563<I2C> {
    /// The bus address of the clock.
    pub closed spec fn spec_address(&self) -> u8 {
        self.address
    }

    /// The bus.
    pub closed spec fn spec_i2c(&self) -> I2C {
        self.i2c
    }

    /// The clock at `address` on the bus `i2c`.
    pub fn new(address: u8, i2c: I2C) -> (clock: PCF8563<I2C>)
        ensures
            clock.spec_address() == address,
            clock.spec_i2c() == i2c,
    {
        PCF8563 { address, i2c }
    }

    /// The bus address of the clock.
    pub fn address(&self) -> (address: u8)
        ensures
            address == self.spec_address(),
    {
        self.address
    }

    /// The bus, to perform a transfer on.
    pub fn i2c(&mut self) -> (i2c: &mut I2C)
        ensures
            *i2c == old(self).spec_i2c(),
            final(self).spec_i2c() == *final(i2c),
            final(self).spec_address() == old(self).spec_address(),
    {
        &mut self.i2c
    }
}

} // verus!
