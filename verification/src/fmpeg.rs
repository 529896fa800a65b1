pub mod aac_utils;
pub mod avc1_utils;
pub mod encoder;
pub mod mp4frag;
pub mod mp4head;
pub mod parser;
pub mod remux_context;
pub mod remuxer;
