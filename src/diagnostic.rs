use vstd::prelude::*;

verus! {

/// How serious a diagnostic is, in order of increasing fatality.
#[derive(Clone, Copy, Debug, PartialEq, Eq, Structural, Hash, PartialOrd, Ord)]
pub enum Severity {
    Advice,
    Warning,
    Error,
}

/// The severity that a diagnostic stands for: one that names none is an error.
pub open spec fn severity_or_error(s: Option<Severity>) -> Severity {
    match s {
        Some(sev) => sev,
        None => Severity::Error,
    }
}

/// A labelled byte range of the source text that a diagnostic refers to.
#[derive(Clone, Debug, PartialEq, Eq, Hash)]
pub struct Label {
    pub text: String,
    pub offset: usize,
    pub len: usize,
}

/// What a value offers to be collected by a sink and rendered.
pub trait Diagnostic {
    /// A human-readable description of the condition.
    fn message(&self) -> String;

    /// The declared severity; `None` is read as `Severity::Error`.
    fn severity(&self) -> Option<Severity>;

    /// A stable identifier, such as `app::negative`.
    fn code(&self) -> Option<String> {
        None
    }

    /// Text that suggests a remedy.
    fn help(&self) -> Option<String> {
        None
    }

    /// The source text that the labels point into.
    fn source_code(&self) -> Option<String> {
        None
    }

    /// Labelled byte ranges of the source text.
    fn labels(&self) -> Vec<Label> {
        Vec::new()
    }
}

impl<D: Diagnostic + ?Sized> Diagnostic for Box<D> {
    fn message(&self) -> String {
        (**self).message()
    }

    fn severity(&self) -> Option<Severity> {
        (**self).severity()
    }

    fn code(&self) -> Option<String> {
        (**self).code()
    }

    fn help(&self) -> Option<String> {
        (**self).help()
    }

    fn source_code(&self) -> Option<String> {
        (**self).source_code()
    }

    fn labels(&self) -> Vec<Label> {
        (**self).labels()
    }
}

/// Marks the diagnostic kinds that may end an operation: only these can be
/// turned into a `Reported` witness.
pub trait Reportable: Diagnostic {}

} // verus!
