pub mod bit_set_ref;
pub mod buffer;
pub mod endianness;
pub mod error;
pub mod validity_trait;
pub mod wallclock;
