use vstd::prelude::*;

verus! {

/// The byte that says what a submessage is.
#[derive(Copy, Clone, Debug, PartialEq, Eq, Structural)]
pub struct SubmessageKind {
    pub value: u8,
}

impl SubmessageKind {
    #[verifier::allow_in_spec]
    pub fn PAD() -> SubmessageKind
        returns
            (SubmessageKind { value: 0x01 }),
    {
        SubmessageKind { value: 0x01 }
    }

    #[verifier::allow_in_spec]
    pub fn ACKNACK() -> SubmessageKind
        returns
            (SubmessageKind { value: 0x06 }),
    {
        SubmessageKind { value: 0x06 }
    }

    #[verifier::allow_in_spec]
    pub fn HEARTBEAT() -> SubmessageKind
        returns
            (SubmessageKind { value: 0x07 }),
    {
        SubmessageKind { value: 0x07 }
    }

    #[verifier::allow_in_spec]
    pub fn GAP() -> SubmessageKind
        returns
            (SubmessageKind { value: 0x08 }),
    {
        SubmessageKind { value: 0x08 }
    }

    #[verifier::allow_in_spec]
    pub fn INFO_TS() -> SubmessageKind
        returns
            (SubmessageKind { value: 0x09 }),
    {
        SubmessageKind { value: 0x09 }
    }

    #[verifier::allow_in_spec]
    pub fn INFO_SRC() -> SubmessageKind
        returns
            (SubmessageKind { value: 0x0c }),
    {
        SubmessageKind { value: 0x0c }
    }

    #[verifier::allow_in_spec]
    pub fn INFO_REPLY_IP4() -> SubmessageKind
        returns
            (SubmessageKind { value: 0x0d }),
    {
        SubmessageKind { value: 0x0d }
    }

    #[verifier::allow_in_spec]
    pub fn INFO_DST() -> SubmessageKind
        returns
            (SubmessageKind { value: 0x0e }),
    {
        SubmessageKind { value: 0x0e }
    }

    #[verifier::allow_in_spec]
    pub fn INFO_REPLY() -> SubmessageKind
        returns
            (SubmessageKind { value: 0x0f }),
    {
        SubmessageKind { value: 0x0f }
    }

    #[verifier::allow_in_spec]
    pub fn NACK_FRAG() -> SubmessageKind
        returns
            (SubmessageKind { value: 0x12 }),
    {
        SubmessageKind { value: 0x12 }
    }

    #[verifier::allow_in_spec]
    pub fn HEARTBEAT_FRAG() -> SubmessageKind
        returns
            (SubmessageKind { value: 0x13 }),
    {
        SubmessageKind { value: 0x13 }
    }

    #[verifier::allow_in_spec]
    pub fn DATA() -> SubmessageKind
        returns
            (SubmessageKind { value: 0x15 }),
    {
        SubmessageKind { value: 0x15 }
    }

    #[verifier::allow_in_spec]
    pub fn DATA_FRAG() -> SubmessageKind
        returns
            (SubmessageKind { value: 0x16 }),
    {
        SubmessageKind { value: 0x16 }
    }
}

} // verus!
