//! The domain value types that tagstructs carry.

pub mod channel_map;
pub mod cvolume;
pub mod format_info;
pub mod proplist;
pub mod sample_spec;
pub mod tagstruct;
