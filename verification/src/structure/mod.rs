pub mod count;
pub mod duration;
pub mod entity_id;
pub mod guid_prefix;
pub mod locator;
pub mod locator_udp_v4;
pub mod sequence_number;
pub mod sequence_number_set;
pub mod time;
pub mod topic_kind;
