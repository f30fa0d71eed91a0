//! Turns the text of an IETF RFC into prompts for a text-generation service and
//! takes the service's answers apart again.
//!
//! Nothing in this crate touches the network, the file system or a subprocess.
//! Each module computes on plain values; [`pipeline`] decides, step by step, what
//! a driver has to do next and what follows from the result it hands back.

pub mod animation;
pub mod gemini;
pub mod http;
pub mod lines;
pub mod paths;
pub mod pipeline;
pub mod prompt;
pub mod rfc;
pub mod text;
