use crate::common::endianness::{
    i32_bytes, i32_from_bytes, i32_of_bits, lemma_i32_round_trip, lemma_u32_round_trip, read_i32,
    read_u32, u32_bytes, u32_from_bytes, write_i32, write_u32, Endianness,
};
use crate::common::error::CodecError;
use crate::common::wallclock::{
    after_unix_epoch, duration_secs, duration_subsec_nanos, since_unix_epoch, unix_duration,
};
use std::time::{Duration, SystemTime};
use vstd::prelude::*;

verus! {

/// A point in time as the Network Time Protocol writes it: whole seconds and
/// a fraction of a second in units of 2^-32 s, so that
/// time = seconds + fraction / 2^32.
#[derive(Clone, Copy, Debug, PartialEq, Eq, PartialOrd, Ord, Hash, Structural)]
pub struct Time_t {
    pub seconds: i32,
    pub fraction: u32,
}

pub type Timestamp = Time_t;

/// The nanoseconds in a second.
pub const NANOS_PER_SEC: u64 = 1_000_000_000;

/// The units of a `Time_t` fraction in a second: 2^32.
pub const FRACS_PER_SEC: u64 = 0x1_0000_0000;

/// The fraction that stands for `nanos` nanoseconds: `nanos * 2^32 / 10^9`,
/// rounded down, and cut to 32 bits where `nanos` is a second or more.
pub open spec fn fraction_of_nanos(nanos: u32) -> u32 {
    (((nanos * FRACS_PER_SEC) / NANOS_PER_SEC as int) % FRACS_PER_SEC as int) as u32
}

/// The nanoseconds that `fraction` stands for: `fraction * 10^9 / 2^32`,
/// rounded down.
pub open spec fn nanos_of_fraction(fraction: u32) -> u32 {
    ((fraction * NANOS_PER_SEC) / FRACS_PER_SEC as int) as u32
}

/// The seconds of a `Time_t` for `secs` seconds since the epoch: the low 32
/// bits of `secs`, read as a signed number.
pub open spec fn seconds_of_secs(secs: u64) -> i32 {
    i32_of_bits((secs % FRACS_PER_SEC) as u32)
}

impl Time_t {
    #[verifier::allow_in_spec]
    pub fn TIME_ZERO() -> Time_t
        returns
            (Time_t { seconds: 0, fraction: 0 }),
    {
        Time_t { seconds: 0, fraction: 0 }
    }

    #[verifier::allow_in_spec]
    pub fn TIME_INVALID() -> Time_t
        returns
            (Time_t { seconds: -1i32, fraction: 0xFFFF_FFFF }),
    {
        Time_t { seconds: -1i32, fraction: 0xFFFF_FFFF }
    }

    #[verifier::allow_in_spec]
    pub fn TIME_INFINITE() -> Time_t
        returns
            (Time_t { seconds: 0x7FFF_FFFF, fraction: 0xFFFF_FFFF }),
    {
        Time_t { seconds: 0x7FFF_FFFF, fraction: 0xFFFF_FFFF }
    }

    /// The wire form: the seconds, then the fraction, four bytes each.
    pub open spec fn wire_bytes(&self, endianness: Endianness) -> Seq<u8> {
        i32_bytes(self.seconds, endianness) + u32_bytes(self.fraction, endianness)
    }

    /// The time that stands at the front of `bytes`.
    pub open spec fn from_wire(bytes: Seq<u8>, endianness: Endianness) -> Time_t {
        Time_t {
            seconds: i32_from_bytes(bytes, endianness),
            fraction: u32_from_bytes(bytes.skip(4), endianness),
        }
    }

    /// The number of bytes that the wire form takes.
    pub fn minimum_bytes_needed() -> (n: usize)
        ensures
            n == 8,
    {
        8
    }

    /// Reads the time at the front of `bytes`.
    pub fn read_from(bytes: &[u8], endianness: Endianness) -> (r: Result<Time_t, CodecError>)
        ensures
            r == if bytes@.len() >= 8 {
                Ok::<Time_t, CodecError>(Time_t::from_wire(bytes@, endianness))
            } else {
                Err(CodecError::InputTooShort)
            },
    {
        if bytes.len() < 8 {
            return Err(CodecError::InputTooShort);
        }
        assert(bytes@.skip(0) =~= bytes@);
        let seconds = read_i32(bytes, 0, endianness);
        let fraction = read_u32(bytes, 4, endianness);
        Ok(Time_t { seconds, fraction })
    }

    /// Appends the wire form to `out`.
    pub fn write_to(&self, endianness: Endianness, out: &mut Vec<u8>)
        ensures
            final(out)@ == old(out)@ + self.wire_bytes(endianness),
    {
        write_i32(self.seconds, endianness, out);
        write_u32(self.fraction, endianness, out);
        assert(out@ =~= old(out)@ + self.wire_bytes(endianness));
    }

    /// A time that is written and read back is unchanged.
    pub proof fn lemma_round_trip(self, endianness: Endianness, rest: Seq<u8>)
        ensures
            self.wire_bytes(endianness).len() == 8,
            Time_t::from_wire(self.wire_bytes(endianness) + rest, endianness) == self,
    {
        let wire = self.wire_bytes(endianness) + rest;
        let tail = u32_bytes(self.fraction, endianness) + rest;
        assert(wire =~= i32_bytes(self.seconds, endianness) + tail);
        lemma_i32_round_trip(self.seconds, endianness, tail);
        assert(wire.skip(4) =~= tail);
        lemma_u32_round_trip(self.fraction, endianness, rest);
    }

    /// The time that lies `secs` seconds and `subsec_nanos` nanoseconds after
    /// the epoch.
    pub fn from_unix_duration(secs: u64, subsec_nanos: u32) -> (time: Time_t)
        ensures
            time.seconds == seconds_of_secs(secs),
            time.fraction == fraction_of_nanos(subsec_nanos),
    {
        let fraction: u64 = (subsec_nanos as u64 * FRACS_PER_SEC) / NANOS_PER_SEC;
        let low: u32 = (secs % FRACS_PER_SEC) as u32;
        let seconds: i32 = if low < 0x8000_0000 {
            low as i32
        } else {
            (low as i64 - 0x1_0000_0000) as i32
        };
        Time_t { seconds, fraction: (fraction % FRACS_PER_SEC) as u32 }
    }

    /// The seconds and nanoseconds after the epoch at which this time lies.
    /// `TIME_INVALID` lies nowhere, and neither does a time before the epoch.
    pub fn to_unix_duration(&self) -> (r: Option<(u64, u32)>)
        ensures
            r == if *self == Time_t::TIME_INVALID() || self.seconds < 0 {
                None::<(u64, u32)>
            } else {
                Some((self.seconds as u64, nanos_of_fraction(self.fraction)))
            },
            r matches Some((_, nanos)) ==> nanos < NANOS_PER_SEC,
    {
        if self.seconds < 0 {
            return None;
        }
        let nanos: u64 = (self.fraction as u64 * NANOS_PER_SEC) / FRACS_PER_SEC;
        Some((self.seconds as u64, nanos as u32))
    }
}

impl Default for Time_t {
    fn default() -> (time: Time_t)
        ensures
            time == Time_t::TIME_ZERO(),
    {
        Time_t::TIME_ZERO()
    }
}

impl From<SystemTime> for Time_t {
    /// The time of the protocol for a time of the system's clock;
    /// `TIME_INVALID` for a time before the epoch.
    fn from(sys_time: SystemTime) -> (time: Self) {
        match since_unix_epoch(sys_time) {
            Some(dur_since_epoch) => Time_t::from_unix_duration(
                dur_since_epoch.as_secs(),
                dur_since_epoch.subsec_nanos(),
            ),
            None => Time_t::TIME_INVALID(),
        }
    }
}

impl vstd::std_specs::convert::FromSpecImpl<SystemTime> for Time_t {
    open spec fn obeys_from_spec() -> bool {
        true
    }

    open spec fn from_spec(sys_time: SystemTime) -> Self {
        match unix_duration(sys_time) {
            Some(span) => Time_t {
                seconds: seconds_of_secs(duration_secs(span)),
                fraction: fraction_of_nanos(duration_subsec_nanos(span)),
            },
            None => Time_t::TIME_INVALID(),
        }
    }
}

/// The error of a conversion from `TIME_INVALID`.
pub open spec fn invalid_time_error() -> &'static str {
    "Conversion from Time_t::TIME_INVALID"
}

/// The error of a conversion from a time before the epoch.
pub open spec fn time_before_epoch_error() -> &'static str {
    "Conversion from a Time_t before the epoch"
}

/// The error of a conversion from a time that the system's clock cannot
/// hold.
pub open spec fn time_beyond_clock_error() -> &'static str {
    "Conversion from a Time_t beyond the system's clock"
}

/// What the conversion of a time at or after the epoch comes to, where
/// `found` is what the system's clock makes of its seconds and nanoseconds.
pub fn system_time_found(found: Option<SystemTime>) -> (r: Result<SystemTime, &'static str>)
    ensures
        r == match found {
            Some(sys_time) => Ok::<SystemTime, &'static str>(sys_time),
            None => Err(time_beyond_clock_error()),
        },
{
    match found {
        Some(sys_time) => Ok(sys_time),
        None => Err("Conversion from a Time_t beyond the system's clock"),
    }
}

impl TryFrom<Time_t> for SystemTime {
    type Error = &'static str;

    /// The time of the system's clock for a time of the protocol: the clock's
    /// time for the seconds and nanoseconds that `to_unix_duration` gives.
    /// There is none for `TIME_INVALID`, for a time before the epoch, and for
    /// a time that the system's clock cannot hold.
    fn try_from(time: Time_t) -> (r: Result<Self, Self::Error>)
        ensures
            time == Time_t::TIME_INVALID() ==> r == Err::<SystemTime, &'static str>(
                invalid_time_error(),
            ),
            time != Time_t::TIME_INVALID() && time.seconds < 0 ==> r == Err::<
                SystemTime,
                &'static str,
            >(time_before_epoch_error()),
            time.seconds >= 0 ==> (r matches Err(e) ==> e == time_beyond_clock_error()),
            r matches Ok(sys_time) ==> time.seconds >= 0 && unix_duration(sys_time).is_some(),
    {
        if time.seconds == -1 && time.fraction == 0xFFFF_FFFF {
            return Err("Conversion from Time_t::TIME_INVALID");
        }
        match time.to_unix_duration() {
            Some((secs, nanos)) => system_time_found(after_unix_epoch(Duration::new(secs, nanos))),
            None => Err("Conversion from a Time_t before the epoch"),
        }
    }
}

impl vstd::std_specs::convert::TryFromSpecImpl<Time_t> for SystemTime {
    open spec fn obeys_try_from_spec() -> bool {
        false
    }

    open spec fn try_from_spec(time: Time_t) -> Result<Self, Self::Error> {
        arbitrary()
    }
}

/// A time that is made from whole nanoseconds lies at or before them, by less
/// than one unit of the fraction.
pub proof fn lemma_fraction_of_nanos_is_close(nanos: u32)
    requires
        nanos < NANOS_PER_SEC,
    ensures
        fraction_of_nanos(nanos) * NANOS_PER_SEC <= nanos * FRACS_PER_SEC,
        nanos * FRACS_PER_SEC < (fraction_of_nanos(nanos) + 1) * NANOS_PER_SEC,
{
}

/// The nanoseconds that come back from a time made of whole nanoseconds are
/// those that went in, or one less.
pub proof fn lemma_nanos_round_trip(nanos: u32)
    requires
        nanos < NANOS_PER_SEC,
    ensures
        nanos_of_fraction(fraction_of_nanos(nanos)) <= nanos,
        nanos <= nanos_of_fraction(fraction_of_nanos(nanos)) + 1,
{
    lemma_fraction_of_nanos_is_close(nanos);
}

/// The fraction that comes back from the nanoseconds of a time is the one that
/// went in, or up to five units less: a nanosecond is more than four units.
pub proof fn lemma_fraction_round_trip(fraction: u32)
    ensures
        nanos_of_fraction(fraction) < NANOS_PER_SEC,
        fraction_of_nanos(nanos_of_fraction(fraction)) <= fraction,
        fraction <= fraction_of_nanos(nanos_of_fraction(fraction)) + 5,
{
}

/// A time at or after the epoch, other than `TIME_INVALID`, comes back from
/// its seconds and nanoseconds with the same seconds, and with a fraction
/// that is at most five units less.
pub proof fn lemma_time_round_trip(time: Time_t)
    requires
        time.seconds >= 0,
    ensures
        seconds_of_secs(time.seconds as u64) == time.seconds,
        fraction_of_nanos(nanos_of_fraction(time.fraction)) <= time.fraction,
        time.fraction <= fraction_of_nanos(nanos_of_fraction(time.fraction)) + 5,
{
    lemma_fraction_round_trip(time.fraction);
}

} // verus!
