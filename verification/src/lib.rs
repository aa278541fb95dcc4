//! Identifiers that are unique within one running process.
//!
//! An identifier is a pair of a prefix, claimed once per allocation block from a
//! process-wide counter, and an offset that counts up inside that block. A thread
//! that owns a block hands out identifiers without talking to any other thread;
//! only when a block's offsets run out does it claim a new prefix.
//!
//! The identifiers are sequential and easy to guess: they are names, never
//! secrets.

pub mod block;
pub mod counter;
pub mod id;
pub mod process;
pub mod text;
