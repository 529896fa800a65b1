pub mod decoder;
pub mod demuxer;
pub mod header;
pub mod meta;
pub mod script;
pub mod tag;
