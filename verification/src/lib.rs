//! Reads the metadata of MP3 (ID3v1, ID3v2.3, ID3v2.4), FLAC and Ogg Vorbis
//! files without decoding any audio.
//!
//! A parser is made from the bytes of one file and walks them to the end of
//! the metadata: [`ID3Parser`] the frames of an ID3v2 tag, [`FlacParser`] the
//! metadata blocks, [`OggParser`] the pages that carry the comment packet.
//! Tags are kept in a [`registry::TagRegistry`], which finds them again
//! whatever the case of the query and returns the values of one identifier in
//! the order in which they came.
//!
//! Every function is verified against a contract over the bytes that it is
//! given. What a parser holds after a run is stated by one function of the
//! whole file: [`id3::parser::tag_model`], [`flac::parser::flac_model`],
//! [`ogg::parser::ogg_model`]. The decoding of UTF-8 and UTF-16 and the
//! mapping to upper case are left to the standard library; the module
//! [`text`] says what is believed of them.
pub mod flac;
pub mod id3;
pub mod ogg;
pub mod registry;
pub mod source;
pub mod text;
pub mod util;

pub use flac::parser::FlacParser;
pub use id3::parser::ID3Parser;
pub use ogg::parser::OggParser;
