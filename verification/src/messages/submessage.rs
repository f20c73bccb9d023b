use crate::messages::ack_nack::{AckNack, AckNackView};
use crate::messages::gap::{Gap, GapView};
use crate::messages::heartbeat::Heartbeat;
use crate::messages::heartbeat_frag::HeartbeatFrag;
use crate::messages::nack_frag::{NackFrag, NackFragView};
use crate::messages::submessage_flag::SubmessageFlag;
use vstd::prelude::*;

verus! {

/// A submessage that carries the state of a reader or a writer. Where the
/// meaning of the body depends on the submessage's flags, they come with it.
#[derive(Debug, PartialEq)]
pub enum EntitySubmessage {
    AckNack(AckNack, SubmessageFlag),
    Gap(Gap),
    Heartbeat(Heartbeat, SubmessageFlag),
    HeartbeatFrag(HeartbeatFrag),
    NackFrag(NackFrag),
}

/// What an `EntitySubmessage` stands for.
pub enum EntitySubmessageView {
    AckNack(AckNackView, SubmessageFlag),
    Gap(GapView),
    Heartbeat(Heartbeat, SubmessageFlag),
    HeartbeatFrag(HeartbeatFrag),
    NackFrag(NackFragView),
}

impl View for EntitySubmessage {
    type V = EntitySubmessageView;

    open spec fn view(&self) -> EntitySubmessageView {
        match *self {
            EntitySubmessage::AckNack(ack_nack, flags) => EntitySubmessageView::AckNack(
                ack_nack@,
                flags,
            ),
            EntitySubmessage::Gap(gap) => EntitySubmessageView::Gap(gap@),
            EntitySubmessage::Heartbeat(heartbeat, flags) => EntitySubmessageView::Heartbeat(
                heartbeat,
                flags,
            ),
            EntitySubmessage::HeartbeatFrag(heartbeat_frag) => EntitySubmessageView::HeartbeatFrag(
                heartbeat_frag,
            ),
            EntitySubmessage::NackFrag(nack_frag) => EntitySubmessageView::NackFrag(nack_frag@),
        }
    }
}

} // verus!
