//! A fixed-capacity, cursor-based byte buffer for reading wire-format packets
//! one field at a time, with every access checked against the buffer's bounds.

pub mod decimal;
pub mod lemmas;
pub mod packet;
