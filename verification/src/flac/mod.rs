pub mod blocks;
pub mod decoder;
pub mod error;
pub mod parser;
