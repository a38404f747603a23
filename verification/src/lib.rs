//! Supervisor for a locally launched debug-adapter-protocol server.
//!
//! The crate models the lifecycle of a single background server instance:
//! validating the user-supplied port, the start/stop state machine, and the
//! queue that carries timestamped log lines from background producers to a
//! polling consumer. Process spawning, the file system and the GUI live in
//! the surrounding application; this library holds the decisions and the
//! data, each with a verified contract.

pub mod logger;
pub mod port;
pub mod project;
pub mod supervisor;
pub mod version;
