//! A shared pixel canvas that is drawn on by IPv6 packets: the destination
//! address of each accepted packet carries the pixel's position, size and color.

pub mod backend;
pub mod canvas;
pub mod place;
pub mod settings;
pub mod text;
pub mod utils;
pub mod websocket;
pub mod wire;
