use crate::common::endianness::Endianness;
use crate::common::error::CodecError;
use crate::structure::locator::{
    lemma_locator_list_round_trip, locator_list_bytes, locator_list_fits, locator_list_from_wire,
    locator_list_wire_len, read_locator_list, write_locator_list, LocatorList_t, Locator_t,
};
use vstd::prelude::*;
use vstd::slice::slice_subrange;

verus! {

/// A reader tells a writer where to send the replies to the submessages that
/// follow.
#[derive(Debug, PartialEq)]
pub struct InfoReply {
    /// The unicast addresses at which the writer reaches the reader.
    pub unicast_locator_list: LocatorList_t,
    /// The multicast addresses at which the writer reaches the reader. They
    /// are there only where the submessage's multicast flag is set.
    pub multicast_locator_list: Option<LocatorList_t>,
}

/// The flag of an INFO_REPLY submessage that says that a multicast list
/// follows the unicast list.
pub const MULTICAST_FLAG: u8 = 0x02;

/// What an `InfoReply` stands for.
pub struct InfoReplyView {
    pub unicast_locator_list: Seq<Locator_t>,
    pub multicast_locator_list: Option<Seq<Locator_t>>,
}

impl View for InfoReply {
    type V = InfoReplyView;

    open spec fn view(&self) -> InfoReplyView {
        InfoReplyView {
            unicast_locator_list: self.unicast_locator_list@,
            multicast_locator_list: match self.multicast_locator_list {
                Some(list) => Some(list@),
                None => None,
            },
        }
    }
}

impl InfoReplyView {
    /// The wire form: the unicast list, then the multicast list where there
    /// is one.
    pub open spec fn wire_bytes(&self, endianness: Endianness) -> Seq<u8> {
        let multicast = match self.multicast_locator_list {
            Some(list) => locator_list_bytes(list, endianness),
            None => Seq::<u8>::empty(),
        };
        locator_list_bytes(self.unicast_locator_list, endianness) + multicast
    }

    /// Whether a whole `InfoReply` stands at the front of `bytes`, where
    /// `multicast` says whether the submessage's multicast flag is set.
    pub open spec fn fits(bytes: Seq<u8>, endianness: Endianness, multicast: bool) -> bool {
        locator_list_fits(bytes, endianness) && (multicast ==> locator_list_fits(
            bytes.skip(locator_list_wire_len(bytes, endianness) as int),
            endianness,
        ))
    }

    /// The `InfoReply` that stands at the front of `bytes`.
    pub open spec fn from_wire(bytes: Seq<u8>, endianness: Endianness, multicast: bool)
        -> InfoReplyView {
        InfoReplyView {
            unicast_locator_list: locator_list_from_wire(bytes, endianness),
            multicast_locator_list: if multicast {
                Some(
                    locator_list_from_wire(
                        bytes.skip(locator_list_wire_len(bytes, endianness) as int),
                        endianness,
                    ),
                )
            } else {
                None
            },
        }
    }

    /// An `InfoReply` that is written and read back, with the multicast flag
    /// set exactly if there is a multicast list, is unchanged.
    pub proof fn lemma_round_trip(self, endianness: Endianness, rest: Seq<u8>)
        requires
            self.unicast_locator_list.len() <= u32::MAX,
            self.multicast_locator_list matches Some(list) ==> list.len() <= u32::MAX,
        ensures
            Self::fits(
                self.wire_bytes(endianness) + rest,
                endianness,
                self.multicast_locator_list.is_some(),
            ),
            Self::from_wire(
                self.wire_bytes(endianness) + rest,
                endianness,
                self.multicast_locator_list.is_some(),
            ) == self,
    {
        let wire = self.wire_bytes(endianness) + rest;
        let unicast = locator_list_bytes(self.unicast_locator_list, endianness);
        match self.multicast_locator_list {
            Some(list) => {
                let multicast = locator_list_bytes(list, endianness);
                assert(wire =~= unicast + (multicast + rest));
                lemma_locator_list_round_trip(
                    self.unicast_locator_list,
                    endianness,
                    multicast + rest,
                );
                assert(wire.skip(unicast.len() as int) =~= multicast + rest);
                lemma_locator_list_round_trip(list, endianness, rest);
            },
            None => {
                assert(wire =~= unicast + rest);
                lemma_locator_list_round_trip(self.unicast_locator_list, endianness, rest);
            },
        }
    }
}

impl InfoReply {
    /// Reads the `InfoReply` at the front of `bytes`, where `multicast` says
    /// whether the submessage's multicast flag is set.
    pub fn read_from(bytes: &[u8], endianness: Endianness, multicast: bool) -> (r: Result<
        InfoReply,
        CodecError,
    >)
        ensures
            match r {
                Ok(info_reply) => {
                    &&& InfoReplyView::fits(bytes@, endianness, multicast)
                    &&& info_reply@ == InfoReplyView::from_wire(bytes@, endianness, multicast)
                },
                Err(e) => {
                    &&& !InfoReplyView::fits(bytes@, endianness, multicast)
                    &&& e == CodecError::InputTooShort
                },
            },
    {
        let (unicast_locator_list, used) = read_locator_list(bytes, endianness)?;
        let multicast_locator_list = if multicast {
            let (list, _) = read_locator_list(
                slice_subrange(bytes, used, bytes.len()),
                endianness,
            )?;
            Some(list)
        } else {
            None
        };
        Ok(InfoReply { unicast_locator_list, multicast_locator_list })
    }

    /// Appends the wire form to `out`.
    pub fn write_to(&self, endianness: Endianness, out: &mut Vec<u8>)
        requires
            self@.unicast_locator_list.len() <= u32::MAX,
            self@.multicast_locator_list matches Some(list) ==> list.len() <= u32::MAX,
        ensures
            final(out)@ == old(out)@ + self@.wire_bytes(endianness),
    {
        write_locator_list(&self.unicast_locator_list, endianness, out);
        match &self.multicast_locator_list {
            Some(list) => {
                write_locator_list(list, endianness, out);
            },
            None => {},
        }
        assert(out@ =~= old(out)@ + self@.wire_bytes(endianness));
    }
}

} // verus!
