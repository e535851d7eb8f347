pub mod allanime;
pub mod streaming;
pub mod episodes;
