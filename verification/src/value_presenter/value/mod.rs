//! The values that fields hold, each with its JSON codec.

pub mod cascader_value;
pub mod file_object;
pub mod json_codec;
pub mod naive_date_time;
pub mod number;
pub mod options_value;
pub mod prosemirror;
pub mod relation_value;
pub mod user_boundary;
pub mod uuid;
