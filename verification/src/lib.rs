//! Supervision of long-running runs of the Pioneer command-line tool.
//!
//! The library decides and its caller acts. It holds the stage model of
//! the two run modes, the tracker that infers a stage from a log line, the
//! multiplexer that orders the lines of the two output streams, the state
//! machine of a run, and the deep merge of persisted configuration onto
//! defaults. Processes, files, threads and the window belong to the caller.

pub mod config;
pub mod defaults;
pub mod discovery;
pub mod event;
pub mod launch;
pub mod mux;
pub mod progress;
pub mod run;
pub mod stage;
pub mod terminal;
pub mod text;
pub mod tracker;
