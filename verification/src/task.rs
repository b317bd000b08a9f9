//! Tasks that the kernel runs: the keyboard shell.
pub mod keyboard;
