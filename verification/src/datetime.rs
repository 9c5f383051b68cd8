//! Date and time values, laid out as the native toolkit reads them.
use vstd::prelude::*;
use core::cmp::Ordering;

verus! {

/// On which side of UTC a time zone lies.
#[allow(clippy::upper_case_acronyms)]
#[derive(Clone, Copy, Debug, PartialEq, Eq, Hash, Structural)]
pub enum TzSign {
    /// West of UTC.
    West,
    /// UTC itself.
    UTC,
    /// East of UTC.
    East,
}

impl TzSign {
    /// The integer of the sign in the native record: -1, 0 or 1.
    pub open spec fn spec_code(self) -> int {
        match self {
            TzSign::West => -1,
            TzSign::UTC => 0,
            TzSign::East => 1,
        }
    }

    /// The integer of the sign in the native record.
    pub fn code(self) -> (r: i32)
        ensures
            r == self.spec_code(),
    {
        match self {
            TzSign::West => -1,
            TzSign::UTC => 0,
            TzSign::East => 1,
        }
    }

    /// Reads the sign out of a native record. This never fails: any negative
    /// number is read as west, any positive number as east.
    pub fn decode(code: i32) -> (r: TzSign)
        ensures
            code < 0 <==> r == TzSign::West,
            code == 0 <==> r == TzSign::UTC,
            code > 0 <==> r == TzSign::East,
    {
        if code < 0 {
            TzSign::West
        } else if code > 0 {
            TzSign::East
        } else {
            TzSign::UTC
        }
    }

    /// The sign that an integer of the native record stands for, if any.
    pub fn from_code(code: i32) -> (r: Option<TzSign>)
        ensures
            r.is_some() <==> -1 <= code <= 1,
            r matches Some(s) ==> s.spec_code() == code,
    {
        match code {
            -1 => Some(TzSign::West),
            0 => Some(TzSign::UTC),
            1 => Some(TzSign::East),
            _ => None,
        }
    }
}

/// The native date and time record, field for field.
#[derive(Clone, Copy, Debug, PartialEq, Eq, Hash, Structural)]
pub struct XmpDateTime {
    pub year: i32,
    pub month: i32,
    pub day: i32,
    pub hour: i32,
    pub minute: i32,
    pub second: i32,
    pub tz_sign: TzSign,
    pub tz_hour: i32,
    pub tz_minute: i32,
    pub nano_second: i32,
}

impl XmpDateTime {
    /// The record with every field zero, in UTC.
    pub open spec fn zero() -> XmpDateTime {
        XmpDateTime {
            year: 0,
            month: 0,
            day: 0,
            hour: 0,
            minute: 0,
            second: 0,
            tz_sign: TzSign::UTC,
            tz_hour: 0,
            tz_minute: 0,
            nano_second: 0,
        }
    }
}

impl Default for XmpDateTime {
    /// The record with every field zero, in UTC.
    fn default() -> (r: XmpDateTime)
        ensures
            r == XmpDateTime::zero(),
    {
        XmpDateTime {
            year: 0,
            month: 0,
            day: 0,
            hour: 0,
            minute: 0,
            second: 0,
            tz_sign: TzSign::UTC,
            tz_hour: 0,
            tz_minute: 0,
            nano_second: 0,
        }
    }
}

/// A date and time.
#[derive(Clone, Copy, Debug)]
pub struct DateTime(XmpDateTime);

impl DateTime {
    /// The native record that this value holds.
    pub closed spec fn view(&self) -> XmpDateTime {
        self.0
    }

    /// A date and time with every field zero, in UTC.
    pub fn new() -> (r: DateTime)
        ensures
            r@ == XmpDateTime::zero(),
    {
        DateTime(XmpDateTime::default())
    }

    /// The native record, to hand to the native side.
    pub fn record(&self) -> (r: XmpDateTime)
        ensures
            r == self@,
    {
        self.0
    }

    /// The native record, to read in place.
    pub fn as_ptr(&self) -> (r: &XmpDateTime)
        ensures
            *r == self@,
    {
        &self.0
    }

    /// The native record, to fill in place: what is written through the
    /// result is what the value holds afterwards.
    pub fn as_mut_ptr(&mut self) -> (r: &mut XmpDateTime)
        ensures
            *r == old(self)@,
            final(self)@ == *final(r),
    {
        &mut self.0
    }

    /// Sets the date and leaves the rest.
    pub fn set_date(&mut self, year: i32, month: i32, day: i32)
        ensures
            final(self)@ == (XmpDateTime { year, month, day, ..old(self)@ }),
    {
        self.0.year = year;
        self.0.month = month;
        self.0.day = day;
    }

    /// Sets the time of day and leaves the rest.
    pub fn set_time(&mut self, hour: i32, min: i32, sec: i32)
        ensures
            final(self)@ == (XmpDateTime { hour, minute: min, second: sec, ..old(self)@ }),
    {
        self.0.hour = hour;
        self.0.minute = min;
        self.0.second = sec;
    }

    /// Sets the nanoseconds and leaves the rest.
    pub fn set_nano_second(&mut self, nano_second: i32)
        ensures
            final(self)@ == (XmpDateTime { nano_second, ..old(self)@ }),
    {
        self.0.nano_second = nano_second;
    }

    /// Sets the time zone and leaves the rest.
    pub fn set_timezone(&mut self, sign: TzSign, hour: i32, min: i32)
        ensures
            final(self)@ == (XmpDateTime {
                tz_sign: sign,
                tz_hour: hour,
                tz_minute: min,
                ..old(self)@
            }),
    {
        self.0.tz_sign = sign;
        self.0.tz_hour = hour;
        self.0.tz_minute = min;
    }

    /// The year.
    pub fn year(&self) -> (r: i32)
        ensures
            r == self@.year,
    {
        self.0.year
    }

    /// The month.
    pub fn month(&self) -> (r: i32)
        ensures
            r == self@.month,
    {
        self.0.month
    }

    /// The day.
    pub fn day(&self) -> (r: i32)
        ensures
            r == self@.day,
    {
        self.0.day
    }

    /// The hour.
    pub fn hour(&self) -> (r: i32)
        ensures
            r == self@.hour,
    {
        self.0.hour
    }

    /// The minute.
    pub fn minute(&self) -> (r: i32)
        ensures
            r == self@.minute,
    {
        self.0.minute
    }

    /// The second.
    pub fn second(&self) -> (r: i32)
        ensures
            r == self@.second,
    {
        self.0.second
    }

    /// The nanoseconds.
    pub fn nano_second(&self) -> (r: i32)
        ensures
            r == self@.nano_second,
    {
        self.0.nano_second
    }

    /// The side of UTC of the time zone.
    pub fn tz_sign(&self) -> (r: TzSign)
        ensures
            r == self@.tz_sign,
    {
        self.0.tz_sign
    }

    /// The hours of the time zone offset.
    pub fn tz_hour(&self) -> (r: i32)
        ensures
            r == self@.tz_hour,
    {
        self.0.tz_hour
    }

    /// The minutes of the time zone offset.
    pub fn tz_minute(&self) -> (r: i32)
        ensures
            r == self@.tz_minute,
    {
        self.0.tz_minute
    }

    /// Reads the number that the native comparison of two dates returned:
    /// negative when the left one is earlier, zero when both name the same
    /// instant, positive when the left one is later.
    pub fn ordering_of(compared: i32) -> (r: Ordering)
        ensures
            compared < 0 <==> r == Ordering::Less,
            compared == 0 <==> r == Ordering::Equal,
            compared > 0 <==> r == Ordering::Greater,
    {
        if compared < 0 {
            Ordering::Less
        } else if compared > 0 {
            Ordering::Greater
        } else {
            Ordering::Equal
        }
    }
}

impl vstd::std_specs::convert::FromSpecImpl<XmpDateTime> for DateTime {
    open spec fn obeys_from_spec() -> bool {
        true
    }

    open spec fn from_spec(d: XmpDateTime) -> DateTime {
        DateTime::spec_wrap(d)
    }
}

impl DateTime {
    /// The value that holds `d`.
    pub closed spec fn spec_wrap(d: XmpDateTime) -> DateTime {
        DateTime(d)
    }
}

impl From<XmpDateTime> for DateTime {
    /// Wraps a native record.
    fn from(d: XmpDateTime) -> (r: DateTime)
        ensures
            r@ == d,
    {
        DateTime(d)
    }
}

impl Default for DateTime {
    /// A date and time with every field zero, in UTC.
    fn default() -> (r: DateTime)
        ensures
            r@ == XmpDateTime::zero(),
    {
        DateTime::new()
    }
}

} // verus!
