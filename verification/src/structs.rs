//! The records that the catalogue's replies decode to, one module for each
//! kind of entity.

pub mod channels;
pub mod common;
pub mod episodes;
pub mod seasons;
pub mod series;
pub mod videos;
