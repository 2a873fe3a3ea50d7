//! The backend commands of a small desktop application.
//!
//! A graphical frontend asks for three things: a greeting for a name, the
//! text of a file, and the writing of a text to a file. The greeting is
//! computed here. For the two file commands the host program makes the
//! system call and hands its outcome to this library, which decides what the
//! frontend is told.

pub mod file_reply;
pub mod greeting;

pub use file_reply::{read_file_reply, write_file_reply};
pub use greeting::greet;
