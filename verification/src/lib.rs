//! An emulator core for a small 16-bit instruction-set machine with 4096 bytes
//! of memory, sixteen 8-bit registers, an index register and a call stack.
//!
//! - [`instruction`]: the instruction word and its fields.
//! - [`state`]: the machine as a mathematical value, and what each operation
//!   does to it.
//! - [`machine`]: the executable machine, held to [`state`] by its contracts.
//! - [`text`]: the text that the machine emits.
//! - [`lemmas`]: what holds of the operations for every state.
//!
//! The machine never prints and never ends the process: what it emits is
//! appended to a `String` that the caller hands in, and a run returns why it
//! stopped.

pub mod instruction;
pub mod lemmas;
pub mod machine;
pub mod state;
pub mod text;
