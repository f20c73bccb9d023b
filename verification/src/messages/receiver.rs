use crate::common::buffer::{buffer_advance, buffer_bytes, buffer_split_to};
use crate::common::endianness::Endianness;
use crate::common::error::CodecError;
use crate::common::validity_trait::Validity;
use crate::messages::ack_nack::{AckNack, AckNackView};
use crate::messages::gap::{Gap, GapView};
use crate::messages::header::{Header, HEADER_SIZE};
use crate::messages::heartbeat::{Heartbeat, HEARTBEAT_SIZE};
use crate::messages::heartbeat_frag::{HeartbeatFrag, HEARTBEAT_FRAG_SIZE};
use crate::messages::info_destination::{InfoDestination, INFO_DESTINATION_SIZE};
use crate::messages::info_reply::MULTICAST_FLAG;
use crate::messages::info_source::{InfoSource, INFO_SOURCE_SIZE};
use crate::messages::info_timestamp::INVALIDATE_FLAG;
use crate::messages::nack_frag::{NackFrag, NackFragView};
use crate::messages::protocol_version::ProtocolVersion_t;
use crate::messages::submessage::{EntitySubmessage, EntitySubmessageView};
use crate::messages::submessage_header::SubmessageHeader;
use crate::messages::submessage_kind::SubmessageKind;
use crate::messages::vendor_id::VendorId_t;
use crate::structure::guid_prefix::GuidPrefix_t;
use crate::structure::locator::{
    locator_list_fits, locator_list_from_wire, locator_list_wire_len, read_locator_list,
    LocatorKind_t, LocatorList_t, Locator_t,
};
use crate::structure::time::Time_t;
use bytes::BytesMut;
use vstd::prelude::*;
use vstd::slice::slice_subrange;

verus! {

/// What the receiver of a message knows while it works through the message:
/// who sent the submessages, for whom they are meant, where replies go and
/// when they were written. The submessages that carry no entity's state
/// change it.
#[derive(Debug, PartialEq)]
pub struct Receiver {
    pub source_version: ProtocolVersion_t,
    pub source_vendor_id: VendorId_t,
    pub source_guid_prefix: GuidPrefix_t,
    pub dest_guid_prefix: GuidPrefix_t,
    pub unicast_reply_locator_list: LocatorList_t,
    pub multicast_reply_locator_list: LocatorList_t,
    pub have_timestamp: bool,
    pub timestamp: Time_t,
}

/// What a `Receiver` stands for.
pub struct ReceiverView {
    pub source_version: ProtocolVersion_t,
    pub source_vendor_id: VendorId_t,
    pub source_guid_prefix: GuidPrefix_t,
    pub dest_guid_prefix: GuidPrefix_t,
    pub unicast_reply_locator_list: Seq<Locator_t>,
    pub multicast_reply_locator_list: Seq<Locator_t>,
    pub have_timestamp: bool,
    pub timestamp: Time_t,
}

impl View for Receiver {
    type V = ReceiverView;

    open spec fn view(&self) -> ReceiverView {
        ReceiverView {
            source_version: self.source_version,
            source_vendor_id: self.source_vendor_id,
            source_guid_prefix: self.source_guid_prefix,
            dest_guid_prefix: self.dest_guid_prefix,
            unicast_reply_locator_list: self.unicast_reply_locator_list@,
            multicast_reply_locator_list: self.multicast_reply_locator_list@,
            have_timestamp: self.have_timestamp,
            timestamp: self.timestamp,
        }
    }
}

impl ReceiverView {
    /// What a receiver knows before it has seen a message: nothing, and its
    /// reply lists hold one unaddressed locator of `locator_kind` each.
    pub open spec fn initial(locator_kind: LocatorKind_t) -> ReceiverView {
        ReceiverView {
            source_version: ProtocolVersion_t::PROTOCOLVERSION(),
            source_vendor_id: VendorId_t::VENDOR_UNKNOWN(),
            source_guid_prefix: GuidPrefix_t::GUIDPREFIX_UNKNOWN(),
            dest_guid_prefix: GuidPrefix_t::GUIDPREFIX_UNKNOWN(),
            unicast_reply_locator_list: seq![Locator_t::unaddressed(locator_kind)],
            multicast_reply_locator_list: seq![Locator_t::unaddressed(locator_kind)],
            have_timestamp: false,
            timestamp: Time_t::TIME_INVALID(),
        }
    }
}

impl Receiver {
    /// A receiver that has seen no message yet.
    pub fn new(locator_kind: LocatorKind_t) -> (receiver: Receiver)
        ensures
            receiver@ == ReceiverView::initial(locator_kind),
    {
        let mut unicast_reply_locator_list: Vec<Locator_t> = Vec::new();
        unicast_reply_locator_list.push(Locator_t::unaddressed(locator_kind));
        let mut multicast_reply_locator_list: Vec<Locator_t> = Vec::new();
        multicast_reply_locator_list.push(Locator_t::unaddressed(locator_kind));
        let receiver = Receiver {
            source_version: ProtocolVersion_t::PROTOCOLVERSION(),
            source_vendor_id: VendorId_t::VENDOR_UNKNOWN(),
            source_guid_prefix: GuidPrefix_t::GUIDPREFIX_UNKNOWN(),
            dest_guid_prefix: GuidPrefix_t::GUIDPREFIX_UNKNOWN(),
            unicast_reply_locator_list,
            multicast_reply_locator_list,
            have_timestamp: false,
            timestamp: Time_t::TIME_INVALID(),
        };
        assert(receiver@.unicast_reply_locator_list =~= seq![Locator_t::unaddressed(locator_kind)]);
        assert(receiver@.multicast_reply_locator_list =~= seq![
            Locator_t::unaddressed(locator_kind),
        ]);
        receiver
    }
}

/// Why the receiver could not go on.
#[derive(Copy, Clone, Debug, PartialEq, Eq, Structural)]
pub enum ReceiverError {
    /// The bytes are no message of the protocol; the cause says why.
    InvalidData(CodecError),
    /// The submessage carries data, which this receiver does not decode.
    Unimplemented,
}

impl ReceiverError {
    /// A short account of the error: that of the cause for invalid data.
    pub fn description(&self) -> (text: &'static str)
        ensures
            text@ == match *self {
                ReceiverError::InvalidData(cause) => cause.description_text(),
                ReceiverError::Unimplemented => "submessages that carry data are not decoded"@,
            },
    {
        match self {
            ReceiverError::InvalidData(cause) => cause.description(),
            ReceiverError::Unimplemented => "submessages that carry data are not decoded",
        }
    }
}

/// What the receiver expects next in its input.
#[derive(Copy, Clone, Debug, PartialEq, Eq, Structural)]
pub enum DeserializationState {
    /// The header of a message.
    ReadingHeader,
    /// A submessage of the message whose header it has read.
    ReadingSubmessage,
}

/// Reads messages from a stream of bytes, one header or one submessage at a
/// call, keeps what the message says of its sender and its receiver, and
/// hands out the submessages that carry the state of a reader or a writer.
pub struct MessageReceiver {
    receiver: Receiver,
    state: DeserializationState,
}

/// What a `MessageReceiver` stands for.
pub struct MessageReceiverView {
    pub receiver: ReceiverView,
    pub state: DeserializationState,
}

impl View for MessageReceiver {
    type V = MessageReceiverView;

    closed spec fn view(&self) -> MessageReceiverView {
        MessageReceiverView { receiver: self.receiver@, state: self.state }
    }
}

/// What one step of the receiver comes to: what it knows afterwards, what it
/// expects next, and what it hands out.
pub struct StepOutcome {
    pub receiver: ReceiverView,
    pub state: DeserializationState,
    pub output: Result<Option<EntitySubmessageView>, ReceiverError>,
}

/// What one call of `decode` comes to: the outcome of the step, and the bytes
/// that it leaves in the buffer.
pub struct DecodeOutcome {
    pub step: StepOutcome,
    pub rest: Seq<u8>,
}

/// The outcome of a step that fails on `cause`: the message is given up, and
/// the receiver expects the header of the next one.
pub open spec fn failed(receiver: ReceiverView, cause: CodecError) -> StepOutcome {
    StepOutcome {
        receiver,
        state: DeserializationState::ReadingHeader,
        output: Err(ReceiverError::InvalidData(cause)),
    }
}

/// Whether a submessage with this header is the last of its message: its
/// length is 0, and it is neither an INFO_TS nor a PAD, which may have an
/// empty body anywhere.
pub open spec fn is_last_submessage(header: SubmessageHeader) -> bool {
    &&& header.submessage_length == 0
    &&& header.submessage_id != SubmessageKind::INFO_TS()
    &&& header.submessage_id != SubmessageKind::PAD()
}

/// What the receiver expects after a submessage with this header.
pub open spec fn state_after(header: SubmessageHeader) -> DeserializationState {
    if is_last_submessage(header) {
        DeserializationState::ReadingHeader
    } else {
        DeserializationState::ReadingSubmessage
    }
}

/// The outcome of a submessage that was read: the receiver knows `receiver`
/// and hands out `output`.
pub open spec fn accepted(
    receiver: ReceiverView,
    header: SubmessageHeader,
    output: Option<EntitySubmessageView>,
) -> StepOutcome {
    StepOutcome { receiver, state: state_after(header), output: Ok(output) }
}

/// The step that reads a message header from `bytes`, the first
/// `HEADER_SIZE` bytes of the input or all of it if it is shorter. A valid
/// header names the source of the message and clears the timestamp; anything
/// else fails, and the receiver goes on expecting a header.
pub open spec fn header_step(receiver: ReceiverView, bytes: Seq<u8>) -> StepOutcome {
    if bytes.len() < HEADER_SIZE {
        failed(receiver, CodecError::InputTooShort)
    } else if !Header::from_wire(bytes).is_valid() {
        failed(receiver, CodecError::InvalidHeader)
    } else {
        let header = Header::from_wire(bytes);
        StepOutcome {
            receiver: ReceiverView {
                source_guid_prefix: header.guid_prefix,
                source_version: header.protocol_version,
                source_vendor_id: header.vendor_id,
                have_timestamp: false,
                ..receiver
            },
            state: DeserializationState::ReadingSubmessage,
            output: Ok(None),
        }
    }
}

/// Whether the receiver knows submessages of this kind: it hands them out,
/// takes from them what it knows of the message, passes them over as padding
/// or refuses them because they carry data. A submessage of any other kind
/// is passed over and changes nothing.
pub open spec fn is_known_kind(kind: SubmessageKind) -> bool {
    ||| kind == SubmessageKind::PAD()
    ||| kind == SubmessageKind::ACKNACK()
    ||| kind == SubmessageKind::DATA()
    ||| kind == SubmessageKind::DATA_FRAG()
    ||| kind == SubmessageKind::GAP()
    ||| kind == SubmessageKind::NACK_FRAG()
    ||| kind == SubmessageKind::HEARTBEAT()
    ||| kind == SubmessageKind::HEARTBEAT_FRAG()
    ||| kind == SubmessageKind::INFO_SRC()
    ||| kind == SubmessageKind::INFO_DST()
    ||| kind == SubmessageKind::INFO_REPLY()
    ||| kind == SubmessageKind::INFO_TS()
}

/// Whether the body of a submessage with this header is passed over unread:
/// so are paddings and the submessages of a kind that the receiver does not
/// know.
pub open spec fn ignores_body(header: SubmessageHeader) -> bool {
    header.submessage_id == SubmessageKind::PAD() || !is_known_kind(header.submessage_id)
}

/// The number of bytes that the receiver takes from its input for the body
/// of a submessage with this header: the length that the header gives,
/// except that it takes nothing for a submessage that carries data, nor for
/// an INFO_TS whose invalidate flag is set.
pub open spec fn body_len(header: SubmessageHeader) -> nat {
    let kind = header.submessage_id;
    if kind == SubmessageKind::DATA() || kind == SubmessageKind::DATA_FRAG() {
        0
    } else if kind == SubmessageKind::INFO_TS() && header.flags.has_flag(INVALIDATE_FLAG) {
        0
    } else {
        header.submessage_length as nat
    }
}

/// The step for an INFO_SRC submessage: it names another source for what
/// follows, puts the reply lists back to one invalid locator each and clears
/// the timestamp.
pub open spec fn info_source_step(
    receiver: ReceiverView,
    header: SubmessageHeader,
    body: Seq<u8>,
) -> StepOutcome {
    if body.len() < INFO_SOURCE_SIZE {
        failed(receiver, CodecError::InputTooShort)
    } else {
        let info_src = InfoSource::from_wire(body, header.flags.endianness());
        accepted(
            ReceiverView {
                source_guid_prefix: info_src.guid_prefix,
                source_version: info_src.protocol_version,
                source_vendor_id: info_src.vendor_id,
                unicast_reply_locator_list: seq![Locator_t::LOCATOR_INVALID()],
                multicast_reply_locator_list: seq![Locator_t::LOCATOR_INVALID()],
                have_timestamp: false,
                ..receiver
            },
            header,
            None,
        )
    }
}

/// The step for an INFO_DST submessage: it names the participant that what
/// follows is meant for, unless it names the unknown participant.
pub open spec fn info_destination_step(
    receiver: ReceiverView,
    header: SubmessageHeader,
    body: Seq<u8>,
) -> StepOutcome {
    if body.len() < INFO_DESTINATION_SIZE {
        failed(receiver, CodecError::InputTooShort)
    } else {
        let info_dst = InfoDestination::from_wire(body, header.flags.endianness());
        if info_dst.guid_prefix != GuidPrefix_t::GUIDPREFIX_UNKNOWN() {
            accepted(
                ReceiverView { dest_guid_prefix: info_dst.guid_prefix, ..receiver },
                header,
                None,
            )
        } else {
            accepted(receiver, header, None)
        }
    }
}

/// The step for an INFO_REPLY submessage: it gives the unicast reply list,
/// and the multicast reply list where the multicast flag is set; where it is
/// clear the multicast reply list becomes empty. The unicast list is kept
/// even where the multicast list cannot be read.
pub open spec fn info_reply_step(
    receiver: ReceiverView,
    header: SubmessageHeader,
    body: Seq<u8>,
) -> StepOutcome {
    let endianness = header.flags.endianness();
    if !locator_list_fits(body, endianness) {
        failed(receiver, CodecError::InputTooShort)
    } else {
        let with_unicast = ReceiverView {
            unicast_reply_locator_list: locator_list_from_wire(body, endianness),
            ..receiver
        };
        let tail = body.skip(locator_list_wire_len(body, endianness) as int);
        if !header.flags.has_flag(MULTICAST_FLAG) {
            accepted(
                ReceiverView { multicast_reply_locator_list: Seq::empty(), ..with_unicast },
                header,
                None,
            )
        } else if !locator_list_fits(tail, endianness) {
            failed(with_unicast, CodecError::InputTooShort)
        } else {
            accepted(
                ReceiverView {
                    multicast_reply_locator_list: locator_list_from_wire(tail, endianness),
                    ..with_unicast
                },
                header,
                None,
            )
        }
    }
}

/// The step for an INFO_TS submessage: it gives the timestamp of what
/// follows, or takes it away where the invalidate flag is set.
pub open spec fn info_timestamp_step(
    receiver: ReceiverView,
    header: SubmessageHeader,
    body: Seq<u8>,
) -> StepOutcome {
    if header.flags.has_flag(INVALIDATE_FLAG) {
        accepted(ReceiverView { have_timestamp: false, ..receiver }, header, None)
    } else if body.len() < 8 {
        failed(receiver, CodecError::InputTooShort)
    } else {
        accepted(
            ReceiverView {
                have_timestamp: true,
                timestamp: Time_t::from_wire(body, header.flags.endianness()),
                ..receiver
            },
            header,
            None,
        )
    }
}

/// The step for a submessage that carries the state of a reader or a writer:
/// the receiver hands it out and knows what it knew.
pub open spec fn entity_step(
    receiver: ReceiverView,
    header: SubmessageHeader,
    body: Seq<u8>,
) -> StepOutcome {
    let endianness = header.flags.endianness();
    let kind = header.submessage_id;
    if kind == SubmessageKind::ACKNACK() {
        match AckNackView::wire_error(body, endianness) {
            Some(cause) => failed(receiver, cause),
            None => accepted(
                receiver,
                header,
                Some(
                    EntitySubmessageView::AckNack(
                        AckNackView::from_wire(body, endianness),
                        header.flags,
                    ),
                ),
            ),
        }
    } else if kind == SubmessageKind::GAP() {
        match GapView::wire_error(body, endianness) {
            Some(cause) => failed(receiver, cause),
            None => accepted(
                receiver,
                header,
                Some(EntitySubmessageView::Gap(GapView::from_wire(body, endianness))),
            ),
        }
    } else if kind == SubmessageKind::NACK_FRAG() {
        match NackFragView::wire_error(body, endianness) {
            Some(cause) => failed(receiver, cause),
            None => accepted(
                receiver,
                header,
                Some(EntitySubmessageView::NackFrag(NackFragView::from_wire(body, endianness))),
            ),
        }
    } else if kind == SubmessageKind::HEARTBEAT() {
        if body.len() < HEARTBEAT_SIZE {
            failed(receiver, CodecError::InputTooShort)
        } else {
            accepted(
                receiver,
                header,
                Some(
                    EntitySubmessageView::Heartbeat(
                        Heartbeat::from_wire(body, endianness),
                        header.flags,
                    ),
                ),
            )
        }
    } else {
        if body.len() < HEARTBEAT_FRAG_SIZE {
            failed(receiver, CodecError::InputTooShort)
        } else {
            accepted(
                receiver,
                header,
                Some(
                    EntitySubmessageView::HeartbeatFrag(
                        HeartbeatFrag::from_wire(body, endianness),
                    ),
                ),
            )
        }
    }
}

/// The step for the submessage with the header `header` and the body
/// `body`, by the kind of the submessage. A submessage that carries data
/// stops the receiver; one of a kind that it does not know changes nothing.
#[verifier::opaque]
pub open spec fn submessage_step(
    receiver: ReceiverView,
    header: SubmessageHeader,
    body: Seq<u8>,
) -> StepOutcome {
    let kind = header.submessage_id;
    if kind == SubmessageKind::DATA() || kind == SubmessageKind::DATA_FRAG() {
        StepOutcome {
            receiver,
            state: DeserializationState::ReadingHeader,
            output: Err(ReceiverError::Unimplemented),
        }
    } else if kind == SubmessageKind::ACKNACK() || kind == SubmessageKind::GAP() || kind
        == SubmessageKind::NACK_FRAG() || kind == SubmessageKind::HEARTBEAT() || kind
        == SubmessageKind::HEARTBEAT_FRAG() {
        entity_step(receiver, header, body)
    } else if kind == SubmessageKind::INFO_SRC() {
        info_source_step(receiver, header, body)
    } else if kind == SubmessageKind::INFO_DST() {
        info_destination_step(receiver, header, body)
    } else if kind == SubmessageKind::INFO_REPLY() {
        info_reply_step(receiver, header, body)
    } else if kind == SubmessageKind::INFO_TS() {
        info_timestamp_step(receiver, header, body)
    } else {
        accepted(receiver, header, None)
    }
}

/// What one call of `decode` comes to on a receiver that stands for `pre`
/// and a buffer that holds `input`.
///
/// Where the receiver expects a header, it takes `HEADER_SIZE` bytes. Where it
/// expects a submessage, it takes the four bytes of the submessage header and
/// then the body. Where the input ends before what it takes, it takes all
/// there is and fails.
#[verifier::opaque]
pub open spec fn decode_step(pre: MessageReceiverView, input: Seq<u8>) -> DecodeOutcome {
    match pre.state {
        DeserializationState::ReadingHeader => {
            let taken = if input.len() < HEADER_SIZE {
                input.len() as int
            } else {
                HEADER_SIZE as int
            };
            DecodeOutcome {
                step: header_step(pre.receiver, input.take(taken)),
                rest: input.skip(taken),
            }
        },
        DeserializationState::ReadingSubmessage => {
            if input.len() < 4 {
                DecodeOutcome {
                    step: failed(pre.receiver, CodecError::InputTooShort),
                    rest: Seq::empty(),
                }
            } else {
                let header = SubmessageHeader::from_wire(input.take(4));
                let after = input.skip(4);
                let taken = body_len(header) as int;
                if after.len() < taken {
                    DecodeOutcome {
                        step: failed(pre.receiver, CodecError::InputTooShort),
                        rest: Seq::empty(),
                    }
                } else {
                    DecodeOutcome {
                        step: submessage_step(pre.receiver, header, after.take(taken)),
                        rest: after.skip(taken),
                    }
                }
            }
        },
    }
}

/// What a result of the receiver stands for.
pub open spec fn output_view(output: Result<Option<EntitySubmessage>, ReceiverError>) -> Result<
    Option<EntitySubmessageView>,
    ReceiverError,
> {
    match output {
        Ok(Some(submessage)) => Ok(Some(submessage@)),
        Ok(None) => Ok(None),
        Err(e) => Err(e),
    }
}

/// What a submessage can change of what the receiver knows: only an INFO_SRC
/// names another source, only an INFO_DST another destination, and never the
/// unknown one; only an INFO_SRC or an INFO_REPLY touches the reply lists;
/// only an INFO_TS whose invalidate flag is clear gives a timestamp. A
/// submessage that the receiver hands out, a padding, and one that it does
/// not know or does not decode change nothing.
pub proof fn lemma_submessage_changes(
    receiver: ReceiverView,
    header: SubmessageHeader,
    body: Seq<u8>,
)
    ensures
        ({
            let kind = header.submessage_id;
            let after = submessage_step(receiver, header, body).receiver;
            &&& kind != SubmessageKind::INFO_SRC() ==> {
                &&& after.source_version == receiver.source_version
                &&& after.source_vendor_id == receiver.source_vendor_id
                &&& after.source_guid_prefix == receiver.source_guid_prefix
            }
            &&& after.dest_guid_prefix != receiver.dest_guid_prefix ==> {
                &&& kind == SubmessageKind::INFO_DST()
                &&& after.dest_guid_prefix != GuidPrefix_t::GUIDPREFIX_UNKNOWN()
            }
            &&& kind != SubmessageKind::INFO_SRC() && kind != SubmessageKind::INFO_REPLY() ==> {
                &&& after.unicast_reply_locator_list == receiver.unicast_reply_locator_list
                &&& after.multicast_reply_locator_list == receiver.multicast_reply_locator_list
            }
            &&& after.have_timestamp && !receiver.have_timestamp ==> {
                &&& kind == SubmessageKind::INFO_TS()
                &&& !header.flags.has_flag(INVALIDATE_FLAG)
            }
            &&& after.timestamp != receiver.timestamp ==> after.have_timestamp && kind
                == SubmessageKind::INFO_TS()
            &&& kind != SubmessageKind::INFO_SRC() && kind != SubmessageKind::INFO_DST() && kind
                != SubmessageKind::INFO_REPLY() && kind != SubmessageKind::INFO_TS() ==> after
                == receiver
            &&& submessage_step(receiver, header, body).output matches Ok(Some(_)) ==> after
                == receiver
            &&& !is_known_kind(kind) ==> submessage_step(receiver, header, body) == accepted(
                receiver,
                header,
                None,
            )
        }),
{
    reveal(submessage_step);
}

/// A call of `decode` takes bytes from the front of the buffer and leaves the
/// rest as it was. It takes no more than a message header where it expects
/// one, and no more than a submessage header and the length that this gives
/// where it expects a submessage.
pub proof fn lemma_decode_takes_a_prefix(pre: MessageReceiverView, input: Seq<u8>)
    ensures
        ({
            let rest = decode_step(pre, input).rest;
            let taken = input.len() - rest.len();
            &&& 0 <= taken
            &&& rest == input.skip(taken)
            &&& pre.state == DeserializationState::ReadingHeader ==> taken <= HEADER_SIZE
            &&& pre.state == DeserializationState::ReadingSubmessage && input.len() >= 4 ==> taken
                <= 4 + SubmessageHeader::from_wire(input.take(4)).submessage_length
            &&& pre.state == DeserializationState::ReadingSubmessage && input.len() < 4 ==> taken
                == input.len()
        }),
{
    reveal(decode_step);
    let rest = decode_step(pre, input).rest;
    assert(input.skip(input.len() as int) =~= Seq::<u8>::empty());
    if pre.state == DeserializationState::ReadingSubmessage && input.len() >= 4 {
        let header = SubmessageHeader::from_wire(input.take(4));
        let taken = body_len(header) as int;
        if input.skip(4).len() >= taken {
            assert(input.skip(4).skip(taken) =~= input.skip(4 + taken));
        }
    }
}

/// Whether `unit` is a whole submessage that changes nothing of what a
/// receiver knows once it has been read: a PAD, an INFO_DST that names the
/// unknown participant, or an INFO_TS without a body whose invalidate flag
/// is set.
pub open spec fn is_idle_submessage(unit: Seq<u8>) -> bool {
    let header = SubmessageHeader::from_wire(unit.take(4));
    let body = unit.skip(4);
    &&& unit.len() >= 4
    &&& body.len() == header.submessage_length
    &&& {
        ||| header.submessage_id == SubmessageKind::PAD()
        ||| {
            &&& header.submessage_id == SubmessageKind::INFO_DST()
            &&& body.len() >= INFO_DESTINATION_SIZE
            &&& InfoDestination::from_wire(body, header.flags.endianness()).guid_prefix
                == GuidPrefix_t::GUIDPREFIX_UNKNOWN()
        }
        ||| {
            &&& header.submessage_id == SubmessageKind::INFO_TS()
            &&& header.flags.has_flag(INVALIDATE_FLAG)
            &&& header.submessage_length == 0
        }
    }
}

/// What a receiver stands for after the step `outcome`.
pub open spec fn after_step(outcome: StepOutcome) -> MessageReceiverView {
    MessageReceiverView { receiver: outcome.receiver, state: outcome.state }
}

/// A receiver that expects a submessage and finds `unit` at the front of its
/// input, where `unit` is a submessage header and the bytes that the receiver
/// takes for the body, makes the step for that submessage and leaves what
/// follows `unit` in the buffer.
pub proof fn lemma_decode_takes_submessage(pre: MessageReceiverView, unit: Seq<u8>, rest: Seq<u8>)
    requires
        pre.state == DeserializationState::ReadingSubmessage,
        unit.len() >= 4,
        unit.len() == 4 + body_len(SubmessageHeader::from_wire(unit.take(4))),
    ensures
        decode_step(pre, unit + rest).step == submessage_step(
            pre.receiver,
            SubmessageHeader::from_wire(unit.take(4)),
            unit.skip(4),
        ),
        decode_step(pre, unit + rest).rest == rest,
{
    reveal(decode_step);
    let input = unit + rest;
    let body = unit.skip(4);
    assert(input.take(4) =~= unit.take(4));
    assert(input.skip(4).take(body.len() as int) =~= body);
    assert(input.skip(4).skip(body.len() as int) =~= rest);
}

/// The step for a submessage that `is_idle_submessage` describes hands out
/// nothing and goes on expecting a submessage; made again on what the
/// receiver knows after it, it changes nothing.
pub proof fn lemma_idle_step_twice(receiver: ReceiverView, unit: Seq<u8>)
    requires
        is_idle_submessage(unit),
    ensures
        ({
            let header = SubmessageHeader::from_wire(unit.take(4));
            let first = submessage_step(receiver, header, unit.skip(4));
            let second = submessage_step(first.receiver, header, unit.skip(4));
            &&& unit.len() == 4 + body_len(header)
            &&& first.output == Ok::<Option<EntitySubmessageView>, ReceiverError>(None)
            &&& first.state == DeserializationState::ReadingSubmessage
            &&& second == first
        }),
{
    reveal(submessage_step);
}

/// A receiver that reads the same PAD, INFO_DST of the unknown participant or
/// INFO_TS with the invalidate flag twice in succession knows after the
/// second what it knew after the first; each time it hands out nothing, goes
/// on expecting a submessage and takes just the submessage from the buffer.
pub proof fn lemma_idle_submessage_twice(pre: MessageReceiverView, unit: Seq<u8>, rest: Seq<u8>)
    requires
        pre.state == DeserializationState::ReadingSubmessage,
        is_idle_submessage(unit),
    ensures
        ({
            let first = decode_step(pre, unit + unit + rest);
            let second = decode_step(after_step(first.step), first.rest);
            &&& first.step.output == Ok::<Option<EntitySubmessageView>, ReceiverError>(None)
            &&& first.step.state == DeserializationState::ReadingSubmessage
            &&& first.rest == unit + rest
            &&& second.step.output == Ok::<Option<EntitySubmessageView>, ReceiverError>(None)
            &&& second.step.state == DeserializationState::ReadingSubmessage
            &&& second.rest == rest
            &&& second.step.receiver == first.step.receiver
        }),
{
    lemma_idle_step_twice(pre.receiver, unit);
    assert(unit + unit + rest =~= unit + (unit + rest));
    lemma_decode_takes_submessage(pre, unit, unit + rest);
    let first = decode_step(pre, unit + (unit + rest));
    lemma_decode_takes_submessage(after_step(first.step), unit, rest);
}

impl MessageReceiver {
    /// A receiver that has seen no message yet and expects a header.
    pub fn new(locator_kind: LocatorKind_t) -> (message_receiver: MessageReceiver)
        ensures
            message_receiver@ == (MessageReceiverView {
                receiver: ReceiverView::initial(locator_kind),
                state: DeserializationState::ReadingHeader,
            }),
    {
        MessageReceiver {
            receiver: Receiver::new(locator_kind),
            state: DeserializationState::ReadingHeader,
        }
    }

    /// What the receiver knows of the message that it is reading.
    pub fn receiver(&self) -> (receiver: &Receiver)
        ensures
            receiver@ == self@.receiver,
    {
        &self.receiver
    }

    /// What the receiver expects next.
    pub fn state(&self) -> (state: DeserializationState)
        ensures
            state == self@.state,
    {
        self.state
    }

    /// Gives up the message on `cause`.
    fn fail(&mut self, cause: CodecError) -> (r: Result<Option<EntitySubmessage>, ReceiverError>)
        ensures
            final(self)@.receiver == old(self)@.receiver,
            final(self)@.state == DeserializationState::ReadingHeader,
            r == Err::<Option<EntitySubmessage>, ReceiverError>(ReceiverError::InvalidData(cause)),
    {
        self.state = DeserializationState::ReadingHeader;
        Err(ReceiverError::InvalidData(cause))
    }

    /// Takes `bytes` for a message header.
    pub fn process_header(&mut self, bytes: &[u8]) -> (r: Result<
        Option<EntitySubmessage>,
        ReceiverError,
    >)
        ensures
            final(self)@.receiver == header_step(old(self)@.receiver, bytes@).receiver,
            final(self)@.state == header_step(old(self)@.receiver, bytes@).state,
            output_view(r) == header_step(old(self)@.receiver, bytes@).output,
    {
        let header = match Header::read_from(bytes) {
            Ok(header) => header,
            Err(cause) => {
                return self.fail(cause);
            },
        };
        if !header.valid() {
            return self.fail(CodecError::InvalidHeader);
        }
        self.receiver.source_guid_prefix = header.guid_prefix;
        self.receiver.source_version = header.protocol_version;
        self.receiver.source_vendor_id = header.vendor_id;
        self.receiver.have_timestamp = false;
        self.state = DeserializationState::ReadingSubmessage;
        Ok(None)
    }

    /// Whether a submessage with this header is the last of its message.
    fn ends_message(header: &SubmessageHeader) -> (last: bool)
        ensures
            last == is_last_submessage(*header),
    {
        header.submessage_length == 0 && header.submessage_id != SubmessageKind::INFO_TS()
            && header.submessage_id != SubmessageKind::PAD()
    }

    /// Ends a submessage that was read.
    fn accept(&mut self, header: &SubmessageHeader)
        ensures
            final(self)@.receiver == old(self)@.receiver,
            final(self)@.state == state_after(*header),
    {
        self.state = if Self::ends_message(header) {
            DeserializationState::ReadingHeader
        } else {
            DeserializationState::ReadingSubmessage
        };
    }

    /// Takes `body` for the body of a submessage that carries the state of a
    /// reader or a writer.
    fn process_entity(&mut self, header: SubmessageHeader, body: &[u8]) -> (r: Result<
        Option<EntitySubmessage>,
        ReceiverError,
    >)
        requires
            ({
                let kind = header.submessage_id;
                kind == SubmessageKind::ACKNACK() || kind == SubmessageKind::GAP() || kind
                    == SubmessageKind::NACK_FRAG() || kind == SubmessageKind::HEARTBEAT() || kind
                    == SubmessageKind::HEARTBEAT_FRAG()
            }),
        ensures
            final(self)@.receiver == entity_step(old(self)@.receiver, header, body@).receiver,
            final(self)@.state == entity_step(old(self)@.receiver, header, body@).state,
            output_view(r) == entity_step(old(self)@.receiver, header, body@).output,
    {
        let endianness = header.flags.endianness_flag();
        let kind = header.submessage_id;
        let parsed = if kind == SubmessageKind::ACKNACK() {
            match AckNack::read_from(body, endianness) {
                Ok(ack_nack) => Ok(EntitySubmessage::AckNack(ack_nack, header.flags)),
                Err(cause) => Err(cause),
            }
        } else if kind == SubmessageKind::GAP() {
            match Gap::read_from(body, endianness) {
                Ok(gap) => Ok(EntitySubmessage::Gap(gap)),
                Err(cause) => Err(cause),
            }
        } else if kind == SubmessageKind::NACK_FRAG() {
            match NackFrag::read_from(body, endianness) {
                Ok(nack_frag) => Ok(EntitySubmessage::NackFrag(nack_frag)),
                Err(cause) => Err(cause),
            }
        } else if kind == SubmessageKind::HEARTBEAT() {
            match Heartbeat::read_from(body, endianness) {
                Ok(heartbeat) => Ok(EntitySubmessage::Heartbeat(heartbeat, header.flags)),
                Err(cause) => Err(cause),
            }
        } else {
            match HeartbeatFrag::read_from(body, endianness) {
                Ok(heartbeat_frag) => Ok(EntitySubmessage::HeartbeatFrag(heartbeat_frag)),
                Err(cause) => Err(cause),
            }
        };
        match parsed {
            Ok(submessage) => {
                self.accept(&header);
                Ok(Some(submessage))
            },
            Err(cause) => self.fail(cause),
        }
    }

    /// Takes `body` for the body of an INFO_REPLY submessage.
    fn process_info_reply(&mut self, header: SubmessageHeader, body: &[u8]) -> (r: Result<
        Option<EntitySubmessage>,
        ReceiverError,
    >)
        ensures
            final(self)@.receiver == info_reply_step(old(self)@.receiver, header, body@).receiver,
            final(self)@.state == info_reply_step(old(self)@.receiver, header, body@).state,
            output_view(r) == info_reply_step(old(self)@.receiver, header, body@).output,
    {
        let endianness = header.flags.endianness_flag();
        let (unicast, used) = match read_locator_list(body, endianness) {
            Ok(read) => read,
            Err(cause) => {
                return self.fail(cause);
            },
        };
        self.receiver.unicast_reply_locator_list = unicast;
        if header.flags.is_flag_set(MULTICAST_FLAG) {
            let tail = slice_subrange(body, used, body.len());
            match read_locator_list(tail, endianness) {
                Ok((multicast, _)) => {
                    self.receiver.multicast_reply_locator_list = multicast;
                },
                Err(cause) => {
                    return self.fail(cause);
                },
            }
        } else {
            self.receiver.multicast_reply_locator_list = Vec::new();
        }
        self.accept(&header);
        Ok(None)
    }

    /// Takes `body` for the body of the submessage with the header `header`.
    pub fn process_submessage(&mut self, header: SubmessageHeader, body: &[u8]) -> (r: Result<
        Option<EntitySubmessage>,
        ReceiverError,
    >)
        ensures
            final(self)@.receiver == submessage_step(old(self)@.receiver, header, body@).receiver,
            final(self)@.state == submessage_step(old(self)@.receiver, header, body@).state,
            output_view(r) == submessage_step(old(self)@.receiver, header, body@).output,
    {
        proof {
            reveal(submessage_step);
        }
        let endianness = header.flags.endianness_flag();
        let kind = header.submessage_id;
        if kind == SubmessageKind::DATA() || kind == SubmessageKind::DATA_FRAG() {
            self.state = DeserializationState::ReadingHeader;
            Err(ReceiverError::Unimplemented)
        } else if kind == SubmessageKind::ACKNACK() || kind == SubmessageKind::GAP() || kind
            == SubmessageKind::NACK_FRAG() || kind == SubmessageKind::HEARTBEAT() || kind
            == SubmessageKind::HEARTBEAT_FRAG() {
            self.process_entity(header, body)
        } else if kind == SubmessageKind::INFO_SRC() {
            match InfoSource::read_from(body, endianness) {
                Ok(info_src) => {
                    let mut unicast: Vec<Locator_t> = Vec::new();
                    unicast.push(Locator_t::LOCATOR_INVALID());
                    let mut multicast: Vec<Locator_t> = Vec::new();
                    multicast.push(Locator_t::LOCATOR_INVALID());
                    assert(unicast@ =~= seq![Locator_t::LOCATOR_INVALID()]);
                    assert(multicast@ =~= seq![Locator_t::LOCATOR_INVALID()]);
                    self.receiver.source_guid_prefix = info_src.guid_prefix;
                    self.receiver.source_version = info_src.protocol_version;
                    self.receiver.source_vendor_id = info_src.vendor_id;
                    self.receiver.unicast_reply_locator_list = unicast;
                    self.receiver.multicast_reply_locator_list = multicast;
                    self.receiver.have_timestamp = false;
                    self.accept(&header);
                    Ok(None)
                },
                Err(cause) => self.fail(cause),
            }
        } else if kind == SubmessageKind::INFO_DST() {
            match InfoDestination::read_from(body, endianness) {
                Ok(info_dst) => {
                    if !info_dst.guid_prefix.is_unknown() {
                        self.receiver.dest_guid_prefix = info_dst.guid_prefix;
                    }
                    self.accept(&header);
                    Ok(None)
                },
                Err(cause) => self.fail(cause),
            }
        } else if kind == SubmessageKind::INFO_REPLY() {
            self.process_info_reply(header, body)
        } else if kind == SubmessageKind::INFO_TS() {
            if !header.flags.is_flag_set(INVALIDATE_FLAG) {
                match Time_t::read_from(body, endianness) {
                    Ok(timestamp) => {
                        self.receiver.have_timestamp = true;
                        self.receiver.timestamp = timestamp;
                        self.accept(&header);
                        Ok(None)
                    },
                    Err(cause) => self.fail(cause),
                }
            } else {
                self.receiver.have_timestamp = false;
                self.accept(&header);
                Ok(None)
            }
        } else {
            self.accept(&header);
            Ok(None)
        }
    }

    /// The number of bytes to take for the body of a submessage with this
    /// header.
    fn body_length(header: &SubmessageHeader) -> (n: usize)
        ensures
            n == body_len(*header),
    {
        let kind = header.submessage_id;
        if kind == SubmessageKind::DATA() || kind == SubmessageKind::DATA_FRAG() {
            0
        } else if kind == SubmessageKind::INFO_TS() && header.flags.is_flag_set(INVALIDATE_FLAG) {
            0
        } else {
            header.submessage_length as usize
        }
    }

    /// Whether the receiver knows submessages of this kind.
    pub fn knows_kind(kind: SubmessageKind) -> (known: bool)
        ensures
            known == is_known_kind(kind),
    {
        kind == SubmessageKind::PAD() || kind == SubmessageKind::ACKNACK() || kind
            == SubmessageKind::DATA() || kind == SubmessageKind::DATA_FRAG() || kind
            == SubmessageKind::GAP() || kind == SubmessageKind::NACK_FRAG() || kind
            == SubmessageKind::HEARTBEAT() || kind == SubmessageKind::HEARTBEAT_FRAG() || kind
            == SubmessageKind::INFO_SRC() || kind == SubmessageKind::INFO_DST() || kind
            == SubmessageKind::INFO_REPLY() || kind == SubmessageKind::INFO_TS()
    }

    /// Whether the body of a submessage with this header is passed over
    /// unread.
    fn skips_body(header: &SubmessageHeader) -> (skips: bool)
        ensures
            skips == ignores_body(*header),
    {
        header.submessage_id == SubmessageKind::PAD() || !Self::knows_kind(header.submessage_id)
    }

    /// Reads the next unit from the front of `bytes`: a message header where
    /// the receiver expects one, a submessage otherwise. It hands out the
    /// submessage if that carries the state of a reader or a writer, and
    /// `None` after a header or a submessage that only changes what the
    /// receiver knows. The bytes that it has read leave the buffer.
    pub fn decode(&mut self, bytes: &mut BytesMut) -> (r: Result<
        Option<EntitySubmessage>,
        ReceiverError,
    >)
        ensures
            final(self)@.receiver == decode_step(
                old(self)@,
                buffer_bytes(*old(bytes)),
            ).step.receiver,
            final(self)@.state == decode_step(old(self)@, buffer_bytes(*old(bytes))).step.state,
            output_view(r) == decode_step(old(self)@, buffer_bytes(*old(bytes))).step.output,
            buffer_bytes(*final(bytes)) == decode_step(old(self)@, buffer_bytes(*old(bytes))).rest,
    {
        proof {
            reveal(decode_step);
            reveal(submessage_step);
        }
        let ghost input = buffer_bytes(*bytes);
        let available = bytes.len();
        match self.state {
            DeserializationState::ReadingHeader => {
                let taken = if available < HEADER_SIZE {
                    available
                } else {
                    HEADER_SIZE
                };
                let header_bytes = buffer_split_to(bytes, taken);
                self.process_header(header_bytes.as_slice())
            },
            DeserializationState::ReadingSubmessage => {
                if available < 4 {
                    buffer_advance(bytes, available);
                    assert(input.skip(available as int) =~= Seq::<u8>::empty());
                    return self.fail(CodecError::InputTooShort);
                }
                let header_bytes = buffer_split_to(bytes, 4);
                let header = match SubmessageHeader::read_from(header_bytes.as_slice()) {
                    Ok(header) => header,
                    Err(cause) => {
                        return self.fail(cause);
                    },
                };
                let ghost after = input.skip(4);
                let taken = Self::body_length(&header);
                let remaining = bytes.len();
                if remaining < taken {
                    buffer_advance(bytes, remaining);
                    assert(after.skip(remaining as int) =~= Seq::<u8>::empty());
                    return self.fail(CodecError::InputTooShort);
                }
                if Self::skips_body(&header) {
                    buffer_advance(bytes, taken);
                    let nothing: Vec<u8> = Vec::new();
                    self.process_submessage(header, nothing.as_slice())
                } else {
                    let body = buffer_split_to(bytes, taken);
                    self.process_submessage(header, body.as_slice())
                }
            },
        }
    }
}

} // verus!
