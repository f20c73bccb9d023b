pub mod ack_nack;
pub mod fragment_number;
pub mod fragment_number_set;
pub mod gap;
pub mod header;
pub mod heartbeat;
pub mod heartbeat_frag;
pub mod info_destination;
pub mod info_reply;
pub mod info_source;
pub mod info_timestamp;
pub mod nack_frag;
pub mod protocol_version;
pub mod receiver;
pub mod submessage;
pub mod submessage_flag;
pub mod submessage_header;
pub mod submessage_kind;
pub mod vendor_id;
