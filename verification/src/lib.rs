//! The core of a service that summarises the schematic commits of a
//! repository with a text-generation provider.
//!
//! Two things are done here. A streamed completion is relayed to a client:
//! `framer` cuts the provider's byte chunks into lines, `decoder` reads each
//! line as an event, and `relay` turns the events into what goes out, ending
//! every stream with one terminal marker. And the history of a repository is
//! brought up to date: `gate` decides whether a commit still needs a summary,
//! and `batch` walks the commits, records what went wrong, and stops at the
//! first sign of rate limiting.
//!
//! Nothing here reads a socket, a file or the environment. The caller does,
//! and hands over what it got.

pub mod batch;
pub mod decoder;
pub mod framer;
pub mod gate;
pub mod hook;
pub mod overview;
pub mod project_path;
pub mod relay;
pub mod summary;
pub mod text;
pub mod xai_client;
