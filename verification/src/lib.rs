//! crashie — when you need it to fail.
//!
//! The decision logic of a deliberate-failure utility: which exit status a
//! run ends with, how long it waits before it ends, and what the echo and
//! probe listeners answer while it waits. Sockets, threads, the clock of the
//! countdown and the command line live in the program around this library.

pub mod delay;
pub mod exit_codes;
pub mod http_echo;
pub mod options;
pub mod random;
pub mod tcp_echo;
pub mod udp_echo;
