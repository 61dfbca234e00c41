//! A file transfer engine: job and file records, chunked copying with
//! on-the-fly checksums, a shared rate limiter, name-conflict handling, the
//! decisions of the job queue and the parsing of the command line.
pub mod cli;
pub mod engine;
pub mod ids;
pub mod ipc;
pub mod keyed;
pub mod shell_menu;
pub mod store;
pub mod text;

pub use cli::{CliArgs, InitialArgs, parse_cli_args};
