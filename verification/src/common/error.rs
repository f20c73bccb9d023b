use vstd::prelude::*;

verus! {

/// Why a run of bytes is not the wire form of a value.
#[derive(Clone, Copy, Debug, PartialEq, Eq, Structural)]
pub enum CodecError {
    /// The input ends before the value does.
    InputTooShort,
    /// A tagged enum carries a tag that none of its variants has.
    InvalidTag,
    /// A bitmap announces more bits than a ranged bit set may hold.
    BitmapTooLong,
    /// The message header lacks the protocol's magic or names a protocol
    /// version that is not supported.
    InvalidHeader,
}

impl CodecError {
    /// The text of `description`.
    pub open spec fn description_text(&self) -> Seq<char> {
        match *self {
            CodecError::InputTooShort => "input buffer is too small"@,
            CodecError::InvalidTag => "unknown enum tag"@,
            CodecError::BitmapTooLong => "bitmap announces more than 256 bits"@,
            CodecError::InvalidHeader => "Invalid data"@,
        }
    }

    /// A short account of the error for a log line or an error message.
    pub fn description(&self) -> (text: &'static str)
        ensures
            text@ == self.description_text(),
    {
        match self {
            CodecError::InputTooShort => "input buffer is too small",
            CodecError::InvalidTag => "unknown enum tag",
            CodecError::BitmapTooLong => "bitmap announces more than 256 bits",
            CodecError::InvalidHeader => "Invalid data",
        }
    }
}

} // verus!
