//! Articulator: the logic of a small server that lists the scripts stored
//! beside it and runs them on request.

pub mod text;
pub mod scripts;
pub mod listing;
pub mod reply;
pub mod server;
