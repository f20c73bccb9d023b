use crate::common::endianness::Endianness;
use crate::common::error::CodecError;
use crate::structure::time::{Time_t, Timestamp};
use vstd::prelude::*;

verus! {

/// Says at what time the submessages that follow were written.
#[derive(Copy, Clone, Debug, PartialEq)]
pub struct InfoTimestamp {
    /// The time of the submessages that follow. It is there only where the
    /// submessage's invalidate flag is clear.
    pub timestamp: Option<Timestamp>,
}

/// The flag of an INFO_TS submessage that says that no timestamp follows.
pub const INVALIDATE_FLAG: u8 = 0x02;

impl InfoTimestamp {
    /// The wire form: the timestamp where there is one, nothing otherwise.
    pub open spec fn wire_bytes(&self, endianness: Endianness) -> Seq<u8> {
        match self.timestamp {
            Some(timestamp) => timestamp.wire_bytes(endianness),
            None => Seq::<u8>::empty(),
        }
    }

    /// What reading an `InfoTimestamp` at the front of `bytes` gives, where
    /// `invalidate` says whether the submessage's invalidate flag is set.
    pub open spec fn from_wire(bytes: Seq<u8>, endianness: Endianness, invalidate: bool) -> Result<
        InfoTimestamp,
        CodecError,
    > {
        if invalidate {
            Ok(InfoTimestamp { timestamp: None })
        } else if bytes.len() >= 8 {
            Ok(InfoTimestamp { timestamp: Some(Time_t::from_wire(bytes, endianness)) })
        } else {
            Err(CodecError::InputTooShort)
        }
    }

    /// Reads the `InfoTimestamp` at the front of `bytes`, where `invalidate`
    /// says whether the submessage's invalidate flag is set.
    pub fn read_from(bytes: &[u8], endianness: Endianness, invalidate: bool) -> (r: Result<
        InfoTimestamp,
        CodecError,
    >)
        ensures
            r == InfoTimestamp::from_wire(bytes@, endianness, invalidate),
    {
        if invalidate {
            return Ok(InfoTimestamp { timestamp: None });
        }
        let timestamp = Time_t::read_from(bytes, endianness)?;
        Ok(InfoTimestamp { timestamp: Some(timestamp) })
    }

    /// Appends the wire form to `out`.
    pub fn write_to(&self, endianness: Endianness, out: &mut Vec<u8>)
        ensures
            final(out)@ == old(out)@ + self.wire_bytes(endianness),
    {
        match self.timestamp {
            Some(timestamp) => {
                timestamp.write_to(endianness, out);
            },
            None => {
                assert(out@ =~= old(out)@ + self.wire_bytes(endianness));
            },
        }
    }

    /// An `InfoTimestamp` that is written and read back, with the invalidate
    /// flag set exactly if there is no timestamp, is unchanged.
    pub proof fn lemma_round_trip(self, endianness: Endianness, rest: Seq<u8>)
        ensures
            InfoTimestamp::from_wire(
                self.wire_bytes(endianness) + rest,
                endianness,
                self.timestamp.is_none(),
            ) == Ok::<InfoTimestamp, CodecError>(self),
    {
        match self.timestamp {
            Some(timestamp) => {
                timestamp.lemma_round_trip(endianness, rest);
            },
            None => {},
        }
    }
}

} // verus!
