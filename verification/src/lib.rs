//! Scoped timers that report how long a function ran, and the source-level
//! transform that plants one at the top of a function.

pub mod attribute;
mod clock;
pub mod error;
pub mod expand;
pub mod logdrop;
pub mod profiler;
pub mod severity;
mod syntax;
pub mod text;

pub use attribute::profile;
pub use error::ProfileError;
pub use expand::FnItem;
pub use logdrop::LogDropProfiler;
pub use profiler::{AutoLogger, Timing};
pub use severity::Severity;
