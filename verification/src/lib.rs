//! TLS connector and acceptor configuration, and certificate hostname verification.
pub mod acceptor;
pub mod cacerts;
pub mod connector;
pub mod context;
pub mod dns;
pub mod flags;
pub mod ip;
pub mod run;
pub mod session;
pub mod text;
pub mod verify;
