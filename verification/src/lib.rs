//! A minimal desktop-application shell around an external engine process.
//!
//! The shell exposes a single invokable command, `launch_engine`, which plans
//! one spawn of the engine executable at a fixed relative path and reports
//! the operating system's answer back to the caller. This library holds the
//! decisions of that shell: what spawn each invocation plans, how a spawn
//! outcome is resolved into the command's reply, and which command names the
//! shell's dispatch table recognises. The operating-system spawn itself and
//! the GUI event loop run outside the library.

pub mod launcher;
pub mod shell;
