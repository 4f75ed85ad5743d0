//! Stream adapters for command-line tools: a terminal-safe standard-output
//! writer that caps what reaches an interactive terminal, refuses non-text
//! payloads, and announces truncation exactly once; and the selection logic
//! that decides which sink a caller gets.

pub mod errors;
pub mod writer;
pub mod sink;
