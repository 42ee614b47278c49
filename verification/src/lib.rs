//! Decisions behind `nh system`: which configuration is meant, in what order it
//! is built and activated, and what the user is told.
//!
//! But for the question who runs the process, nothing here touches the outside. A
//! command is a record of what is known; it says what it asks for next and is told
//! the reply.

pub mod activation;
pub mod args;
pub mod args_laws;
pub mod attribute;
pub mod course_laws;
pub mod error;
pub mod error_laws;
pub mod installable;
pub mod nix;
pub mod nix_laws;
pub mod os_text;
pub mod protocol;
pub mod rebuild;
pub mod rebuild_laws;
pub mod repl;
pub mod repl_laws;
pub mod request_laws;
pub mod session;
pub mod text;
pub mod text_laws;
pub mod toplevel;
pub mod toplevel_laws;
pub mod view_laws;
