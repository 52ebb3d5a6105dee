#[allow(non_snake_case)]
pub mod APIC;
#[allow(non_snake_case)]
pub mod COMM;
#[allow(non_snake_case)]
pub mod SYLT;
#[allow(non_snake_case)]
pub mod TXXX;
#[allow(non_snake_case)]
pub mod USLT;
#[allow(non_snake_case)]
pub mod WXXX;
pub mod common;
pub mod header;
pub mod identifiers;
pub mod rarely_used;
pub mod text_infomation_frame;
pub mod url_link_frame;
