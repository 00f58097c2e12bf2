//! Client-side logic of the classic Line Printer Daemon wire protocol:
//! job and control-file naming, frame layout, the fixed submission state
//! machine with its per-step acknowledgments, the optional printer-control
//! envelope, and status-response parsing. Transport I/O stays outside.

pub mod bytes;
pub mod control;
pub mod decimal;
pub mod envelope;
pub mod error;
pub mod session;
pub mod status;
