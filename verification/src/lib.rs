//! Synchronisation of one document with a remote location: a directory
//! that the filesystem can address, or a directory on a secure-shell host.
//!
//! The library never touches a file or a socket. A caller starts a session
//! for one operation (`facade`), performs each action that the session hands
//! out, and reports what became of it as an event (`exchange`), until the
//! session yields its result (`outcome`). What holds of every operation is
//! stated and proved in `laws`, over the model of the far side in `world`.

pub mod desktop;
pub mod exchange;
pub mod facade;
pub mod laws;
pub mod local;
pub mod logging;
pub mod outcome;
pub mod share;
pub mod shell;
pub mod text;
pub mod vocabulary;
pub mod world;
