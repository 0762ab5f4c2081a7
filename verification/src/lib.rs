//! Supervision rules for a relay process started on behalf of a test:
//! how an attempt is planned, how its output is read, when it counts as
//! ready, when it is retried, and how the running process is stopped.
//!
//! The library decides and the caller acts: it starts processes, reads
//! their streams and sleeps, and reports each outcome to the rules here.

pub mod conf;
pub mod error;
pub mod gate;
pub mod handle;
pub mod launch;
pub mod logs;

pub use conf::Conf;
pub use error::Error;
pub use handle::NostrD;
pub use logs::try_read_line;
