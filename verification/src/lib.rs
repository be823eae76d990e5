//! A cancellable single-flight task orchestrator for long-running image
//! upscaling work.
//!
//! The crate holds the decisions of the orchestrator as sequential, verified
//! code: the cancellation flags, the task slot, the search for a model file,
//! the naming of the output file and the order of the steps of one upscale
//! request. Everything that touches the file system, the image codec or the
//! upscaling pipeline is left to a driver, which performs the step that the
//! library names and hands back how the step ended.

pub mod error;
pub mod job;
pub mod naming;
pub mod orchestrator;
pub mod paths;
pub mod registry;
pub mod resolver;
pub mod text;
pub mod token;

pub use error::{ErrorKind, UpscaleError};
pub use job::{Command, Progress, UpscaleJob, UpscaleRequest};
pub use orchestrator::{begin_upscale, cancel_upscale, finish_upscale};
pub use registry::ProcessingState;
pub use resolver::{ModelSearch, Query, SearchStep};
pub use token::{CancelFlags, CancellationToken};
