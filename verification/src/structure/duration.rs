use crate::common::endianness::{
    i32_bytes, i32_from_bytes, lemma_i32_round_trip, lemma_u32_round_trip, read_i32, read_u32,
    u32_bytes, u32_from_bytes, write_i32, write_u32, Endianness,
};
use crate::common::error::CodecError;
use crate::common::wallclock::{duration_secs, duration_subsec_nanos};
use crate::structure::time::seconds_of_secs;
use std::time::Duration;
use vstd::prelude::*;

verus! {

/// A span of time, laid out as a `Time_t` is: whole seconds and a fraction.
#[derive(Clone, Copy, Debug, PartialEq, Eq, PartialOrd, Ord, Structural)]
pub struct Duration_t {
    pub seconds: i32,
    pub fraction: u32,
}

impl Duration_t {
    #[verifier::allow_in_spec]
    pub fn DURATION_ZERO() -> Duration_t
        returns
            (Duration_t { seconds: 0, fraction: 0 }),
    {
        Duration_t { seconds: 0, fraction: 0 }
    }

    #[verifier::allow_in_spec]
    pub fn DURATION_INVALID() -> Duration_t
        returns
            (Duration_t { seconds: -1i32, fraction: 0xFFFF_FFFF }),
    {
        Duration_t { seconds: -1i32, fraction: 0xFFFF_FFFF }
    }

    #[verifier::allow_in_spec]
    pub fn DURATION_INFINITE() -> Duration_t
        returns
            (Duration_t { seconds: 0x7FFF_FFFF, fraction: 0xFFFF_FFFF }),
    {
        Duration_t { seconds: 0x7FFF_FFFF, fraction: 0xFFFF_FFFF }
    }

    /// The wire form: the seconds, then the fraction, four bytes each.
    pub open spec fn wire_bytes(&self, endianness: Endianness) -> Seq<u8> {
        i32_bytes(self.seconds, endianness) + u32_bytes(self.fraction, endianness)
    }

    /// The duration that stands at the front of `bytes`.
    pub open spec fn from_wire(bytes: Seq<u8>, endianness: Endianness) -> Duration_t {
        Duration_t {
            seconds: i32_from_bytes(bytes, endianness),
            fraction: u32_from_bytes(bytes.skip(4), endianness),
        }
    }

    /// The number of bytes that the wire form takes.
    pub fn minimum_bytes_needed() -> (n: usize)
        ensures
            n == 8,
    {
        8
    }

    /// Reads the duration at the front of `bytes`.
    pub fn read_from(bytes: &[u8], endianness: Endianness) -> (r: Result<Duration_t, CodecError>)
        ensures
            r == if bytes@.len() >= 8 {
                Ok::<Duration_t, CodecError>(Duration_t::from_wire(bytes@, endianness))
            } else {
                Err(CodecError::InputTooShort)
            },
    {
        if bytes.len() < 8 {
            return Err(CodecError::InputTooShort);
        }
        assert(bytes@.skip(0) =~= bytes@);
        let seconds = read_i32(bytes, 0, endianness);
        let fraction = read_u32(bytes, 4, endianness);
        Ok(Duration_t { seconds, fraction })
    }

    /// Appends the wire form to `out`.
    pub fn write_to(&self, endianness: Endianness, out: &mut Vec<u8>)
        ensures
            final(out)@ == old(out)@ + self.wire_bytes(endianness),
    {
        write_i32(self.seconds, endianness, out);
        write_u32(self.fraction, endianness, out);
        assert(out@ =~= old(out)@ + self.wire_bytes(endianness));
    }

    /// A duration that is written and read back is unchanged.
    pub proof fn lemma_round_trip(self, endianness: Endianness, rest: Seq<u8>)
        ensures
            self.wire_bytes(endianness).len() == 8,
            Duration_t::from_wire(self.wire_bytes(endianness) + rest, endianness) == self,
    {
        let wire = self.wire_bytes(endianness) + rest;
        let tail = u32_bytes(self.fraction, endianness) + rest;
        assert(wire =~= i32_bytes(self.seconds, endianness) + tail);
        lemma_i32_round_trip(self.seconds, endianness, tail);
        assert(wire.skip(4) =~= tail);
        lemma_u32_round_trip(self.fraction, endianness, rest);
    }
}

impl From<Duration> for Duration_t {
    /// See `Duration_t::from_parts`.
    fn from(duration: Duration) -> (converted: Self) {
        Duration_t::from_parts(duration.as_secs(), duration.subsec_nanos())
    }
}

impl vstd::std_specs::convert::FromSpecImpl<Duration> for Duration_t {
    open spec fn obeys_from_spec() -> bool {
        true
    }

    open spec fn from_spec(duration: Duration) -> Self {
        Duration_t {
            seconds: seconds_of_secs(duration_secs(duration)),
            fraction: duration_subsec_nanos(duration),
        }
    }
}

impl Duration_t {
    /// The whole seconds of the `std::time::Duration` that this duration
    /// becomes: the seconds as an unsigned 64-bit number with the same bits,
    /// and the whole seconds among the fraction, which is taken for
    /// nanoseconds; `u64::MAX` where that is more.
    pub open spec fn std_secs(&self) -> u64 {
        let secs = if self.seconds >= 0 {
            self.seconds as int
        } else {
            self.seconds + 0x1_0000_0000_0000_0000
        };
        let carried = secs + self.fraction / 1_000_000_000;
        if carried <= u64::MAX {
            carried as u64
        } else {
            u64::MAX
        }
    }

    /// The nanoseconds of the `std::time::Duration` that this duration
    /// becomes: what the fraction, taken for nanoseconds, leaves beyond
    /// whole seconds.
    pub open spec fn std_subsec_nanos(&self) -> u32 {
        (self.fraction % 1_000_000_000) as u32
    }

    /// The duration of `secs` whole seconds and `subsec_nanos` nanoseconds:
    /// the seconds are the low 32 bits of `secs`, read as a signed number,
    /// and the fraction holds the nanoseconds as they are.
    pub fn from_parts(secs: u64, subsec_nanos: u32) -> (duration: Duration_t)
        ensures
            duration == (Duration_t { seconds: seconds_of_secs(secs), fraction: subsec_nanos }),
    {
        let low: u32 = (secs % 0x1_0000_0000) as u32;
        let seconds: i32 = if low < 0x8000_0000 {
            low as i32
        } else {
            (low as i64 - 0x1_0000_0000) as i32
        };
        Duration_t { seconds, fraction: subsec_nanos }
    }

    /// The whole seconds and the nanoseconds beyond them of the
    /// `std::time::Duration` that this duration becomes.
    pub fn to_parts(&self) -> (parts: (u64, u32))
        ensures
            parts.0 == self.std_secs(),
            parts.1 == self.std_subsec_nanos(),
            parts.1 < 1_000_000_000,
    {
        let secs: u64 = if self.seconds >= 0 {
            self.seconds as u64
        } else {
            (self.seconds as i128 + 0x1_0000_0000_0000_0000) as u64
        };
        let carry: u64 = (self.fraction / 1_000_000_000) as u64;
        let nanos: u32 = self.fraction % 1_000_000_000;
        if secs <= u64::MAX - carry {
            (secs + carry, nanos)
        } else {
            (u64::MAX, nanos)
        }
    }

    /// The `std::time::Duration` of as many seconds and nanoseconds.
    pub fn to_std(&self) -> (duration: Duration)
        ensures
            duration_secs(duration) == self.std_secs(),
            duration_subsec_nanos(duration) == self.std_subsec_nanos(),
    {
        let (secs, nanos) = self.to_parts();
        Duration::new(secs, nanos)
    }
}

impl From<Duration_t> for Duration {
    fn from(duration: Duration_t) -> (converted: Self)
        ensures
            duration_secs(converted) == duration.std_secs(),
            duration_subsec_nanos(converted) == duration.std_subsec_nanos(),
    {
        duration.to_std()
    }
}

impl vstd::std_specs::convert::FromSpecImpl<Duration_t> for Duration {
    open spec fn obeys_from_spec() -> bool {
        false
    }

    open spec fn from_spec(duration: Duration_t) -> Self {
        arbitrary()
    }
}

} // verus!
