//! Networking state that the descriptors consume: socket-address byte
//! images, Unix-domain addresses, and named-pipe options.

pub mod named_pipe;
pub mod sockaddr;
pub mod unix;
