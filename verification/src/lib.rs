//! Core state model of an interactive terminal board: a single ordered list
//! of work items with a wraparound selection cursor, a three-state lifecycle
//! column that cycles, and a log queue that rotates on a fixed tick.
//!
//! Terminal setup, painting and input polling live outside this crate; the
//! library exposes the board operations, the key-to-command table and the
//! tick arithmetic, each with a full functional contract.

pub mod board;
pub mod control;
pub mod logqueue;
