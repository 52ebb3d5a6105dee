pub mod error;
pub mod ogg_vorbis_comment;
pub mod page;
pub mod parser;
