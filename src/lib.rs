//! Generation of the integrity-metadata area (a list of tag-length-value
//! records) that follows a bootable firmware image.

pub mod crypto;
pub mod tlv;
