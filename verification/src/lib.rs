//! Core engine of a transparent terminal wrapper: a pseudo-terminal session
//! bridged to the surrounding terminal, with a key-event encoder and a hook
//! interception point that may consume key combinations before they reach the
//! shell.
//!
//! The modules here hold the verified logic: key encoding and pattern
//! matching (`keys`), the hook registry and its scan decision (`hooks`), the
//! pseudo-terminal session lifecycle (`pty`), the bridge state machine
//! (`bridge`), the terminal raw-mode bookkeeping (`terminal`), popup window
//! layout (`window`), and the conversation log kept for the delegated
//! assistant action (`conversation`). Process spawning, terminal I/O and
//! rendering live with the caller.

pub mod bridge;
pub mod config;
pub mod conversation;
pub mod hooks;
pub mod keys;
pub mod pty;
pub mod terminal;
pub mod window;
