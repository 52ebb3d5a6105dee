pub mod common;
pub mod decoder;
pub mod error;
pub mod extended_header;
pub mod footer;
pub mod frames;
pub mod id3v1_tag;
pub mod parser;
pub mod protocol_header;
pub mod version;
