//! Routing failures into a collector of structured diagnostics, with a
//! witness type that records, at compile time, that a fatal diagnostic has
//! already been reported.

pub mod diagnostic;
pub mod dynamic;
pub mod logging;
pub mod reported;
pub mod sink;

pub use crate::diagnostic::{Diagnostic, Label, Reportable, Severity};
pub use crate::reported::{Reported, ResultExt};
pub use crate::sink::{DiagnosticSink, VecSink};
