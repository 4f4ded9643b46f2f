pub mod hdr;
pub mod open;
pub mod message;
