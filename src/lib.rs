//! Client library for the retdec.com binary-analysis and decompilation service.
//!
//! The services ([`Fileinfo`], [`Decompiler`], [`test::Test`]) submit jobs and
//! return handles ([`Analysis`], [`Decompilation`]) whose status is polled until
//! the job has finished. Requests go through the [`connection::APIConnection`]
//! trait; [`transport::TransportConnection`] implements it over a
//! [`transport::Transport`] that performs the HTTP input and output, and
//! [`mock::APIConnectionMock`] implements it in memory.
use vstd::prelude::*;

pub mod analysis;
pub mod arguments;
pub mod connection;
pub mod decompilation;
pub mod decompiler;
pub mod error;
pub mod file;
pub mod fileinfo;
pub mod json;
pub mod mock;
pub mod resource;
pub mod response;
pub mod settings;
pub mod text;
pub mod transport;
pub mod submission;
mod utf8;

pub use analysis::Analysis;
pub use analysis::AnalysisArguments;
pub use arguments::APIArguments;
pub use decompilation::Decompilation;
pub use decompilation::DecompilationArguments;
pub use decompiler::Decompiler;
pub use error::Error;
pub use error::ErrorKind;
pub use file::File;
pub use fileinfo::Fileinfo;
pub use response::APIResponse;
pub use settings::Settings;
