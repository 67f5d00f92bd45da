//! A facade over an external container-runtime command-line tool.
//!
//! Each operation of the facade classifies what one invocation of the tool
//! produced (captured exit status and output streams) into a uniform
//! success/failure result that a presentation layer can render directly.
//! The process spawning itself happens outside this crate; the logic here
//! works on the captured [`facade::Outcome`] alone.

pub mod text;
pub mod facade;

pub use facade::Outcome;
pub use facade::greet;
pub use facade::check_container_version;
pub use facade::check_container_system_status;
pub use facade::start_container_system;
