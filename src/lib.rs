//! Wire-format codec, packet classification and extension request dispatch
//! for the X11 protocol.

pub mod codec;
pub mod packet;
pub mod extension;
pub mod xinerama;
