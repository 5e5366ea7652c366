pub mod certificate;
pub mod command;
pub mod frame;
pub mod handshake;
pub mod session;
