pub mod block_application;
pub mod block_cue_sheet;
pub mod block_header;
pub mod block_picture;
pub mod block_seektable;
pub mod block_stream_info;
pub mod block_vorbis_comment;
