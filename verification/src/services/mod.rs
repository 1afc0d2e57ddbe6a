pub mod composer;
pub mod decoder;
pub mod media_source;
pub mod read_buf;
pub mod synthesize;
