//! Variable-length-code decoding tables for the spectral entropy stage of an
//! AAC decoder, with the value mappings that turn a decoded symbol index into
//! the quantized coefficients it stands for; and the decisions of a music
//! bot's YouTube source (how a query is served, which thumbnail a track
//! shows, which playlist entries are tracks).

pub mod bits;
pub mod codebooks;
pub mod sources;
pub mod tables;
pub mod vlc;
pub mod ytdl;
