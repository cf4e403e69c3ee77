//! Encoding of the clientbound "recipe book add" packet of the Minecraft
//! Java protocol, with the wire format stated as specifications and every
//! encoder proved to produce exactly those bytes.

pub mod display;
pub mod entry;
pub mod format_laws;
pub mod grid;
pub mod laws;
pub mod packet;
pub mod recipe;
pub mod version;
pub mod wire;
