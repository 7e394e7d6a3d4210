use miette_sink::{Diagnostic, DiagnosticSink, Reportable, Reported, ResultExt, Severity, VecSink};

#[derive(Debug, Clone, PartialEq)]
enum Warning {
    NonZero,
    IntSize(IntSize),
}

#[derive(Debug, Clone, PartialEq)]
enum IntSize {
    TooLarge(i32),
    WayTooLarge(i32),
}

#[derive(Debug, Clone, PartialEq)]
enum Error {
    Negative,
    Parse(std::num::ParseIntError),
}

#[derive(Debug, Clone, PartialEq)]
enum Diag {
    Warning(Warning),
    Error(Error),
}

impl Diagnostic for IntSize {
    fn message(&self) -> String {
        match self {
            IntSize::TooLarge(n) => format!("{} is a bit big", n),
            IntSize::WayTooLarge(n) => format!("{} is WAY too big", n),
        }
    }
    fn severity(&self) -> Option<Severity> {
        Some(Severity::Warning)
    }
    fn code(&self) -> Option<String> {
        match self {
            IntSize::TooLarge(_) => Some("app::int_size::too_large".to_string()),
            IntSize::WayTooLarge(_) => Some("app::int_size::way_too_large".to_string()),
        }
    }
}

impl Diagnostic for Warning {
    fn message(&self) -> String {
        match self {
            Warning::NonZero => "nonzero values scare me".to_string(),
            Warning::IntSize(s) => s.message(),
        }
    }
    fn severity(&self) -> Option<Severity> {
        match self {
            Warning::NonZero => Some(Severity::Warning),
            Warning::IntSize(s) => s.severity(),
        }
    }
    fn code(&self) -> Option<String> {
        match self {
            Warning::NonZero => Some("app::non_zero".to_string()),
            Warning::IntSize(s) => s.code(),
        }
    }
}

impl Diagnostic for Error {
    fn message(&self) -> String {
        match self {
            Error::Negative => "negative numbers are not allowed".to_string(),
            Error::Parse(e) => e.to_string(),
        }
    }
    fn severity(&self) -> Option<Severity> {
        None
    }
    fn code(&self) -> Option<String> {
        match self {
            Error::Negative => Some("app::negative".to_string()),
            Error::Parse(_) => Some("app::input::parse".to_string()),
        }
    }
    fn help(&self) -> Option<String> {
        match self {
            Error::Negative => Some("try something that isn't negative".to_string()),
            Error::Parse(_) => Some("input an integer only please".to_string()),
        }
    }
}

impl Reportable for Error {}

impl Diagnostic for Diag {
    fn message(&self) -> String {
        match self {
            Diag::Warning(w) => w.message(),
            Diag::Error(e) => e.message(),
        }
    }
    fn severity(&self) -> Option<Severity> {
        match self {
            Diag::Warning(w) => w.severity(),
            Diag::Error(e) => e.severity(),
        }
    }
    fn code(&self) -> Option<String> {
        match self {
            Diag::Warning(w) => w.code(),
            Diag::Error(e) => e.code(),
        }
    }
}

impl From<Warning> for Diag {
    fn from(w: Warning) -> Diag {
        Diag::Warning(w)
    }
}

impl From<Error> for Diag {
    fn from(e: Error) -> Diag {
        Diag::Error(e)
    }
}

impl From<IntSize> for Warning {
    fn from(s: IntSize) -> Warning {
        Warning::IntSize(s)
    }
}

impl From<std::num::ParseIntError> for Error {
    fn from(e: std::num::ParseIntError) -> Error {
        Error::Parse(e)
    }
}

type Sink = VecSink<Diag, ()>;

fn check_non_negative(num: i32) -> Result<(), Error> {
    if num < 0 {
        Err(Error::Negative)
    } else {
        Ok(())
    }
}

fn validate_integer_size(num: i32) -> Result<(), IntSize> {
    if num > 10 {
        Err(IntSize::WayTooLarge(num))
    } else if num > 5 {
        Err(IntSize::TooLarge(num))
    } else {
        Ok(())
    }
}

fn validate_generally(value: i32, sink: &mut Sink) -> Result<i32, Reported<Error>> {
    check_non_negative(value).report(sink)?;
    if let Err(size_warning) = validate_integer_size(value).map_err(Warning::from) {
        sink.report(size_warning);
    }
    Ok(value)
}

fn effective(d: &Diag) -> Severity {
    d.severity().unwrap_or(Severity::Error)
}

#[test]
fn reports_are_drained_in_order() {
    let mut sink: Sink = VecSink::new(());
    let first = Diag::Warning(Warning::NonZero);
    let second = Diag::Error(Error::Negative);
    let third = Diag::Warning(Warning::IntSize(IntSize::TooLarge(6)));
    sink.report(first.clone());
    sink.report(second.clone());
    sink.report(third.clone());
    assert_eq!(sink.into_inner(), vec![first, second, third]);
}

#[test]
fn report_converts_into_the_sink_kind() {
    let mut sink: Sink = VecSink::new(());
    sink.report(Warning::NonZero);
    sink.report(Error::Negative);
    assert_eq!(
        sink.diagnostics(),
        &[Diag::Warning(Warning::NonZero), Diag::Error(Error::Negative)][..]
    );
}

#[test]
fn reporting_the_same_kind_stores_it_unchanged() {
    let mut sink: VecSink<Error, ()> = VecSink::new(());
    sink.report(Error::Negative);
    assert_eq!(sink.diagnostics(), &[Error::Negative][..]);
}

#[test]
fn adapter_pushes_once_and_returns_witness() {
    let mut sink: Sink = VecSink::new(());
    let r: Result<u8, Reported<Error>> = Err::<u8, Error>(Error::Negative).report(&mut sink);
    assert!(r.is_err());
    assert_eq!(sink.diagnostics(), &[Diag::Error(Error::Negative)][..]);
}

#[test]
fn adapter_passes_success_through() {
    let mut sink: Sink = VecSink::new(());
    sink.report(Warning::NonZero);
    let r: Result<u8, Reported<Error>> = Ok::<u8, Error>(5).report(&mut sink);
    assert_eq!(r, Ok(5));
    assert_eq!(sink.diagnostics(), &[Diag::Warning(Warning::NonZero)][..]);
}

#[test]
fn adapter_converts_an_underlying_failure() {
    let mut sink: Sink = VecSink::new(());
    let r: Result<i32, Reported<Error>> = "abc".parse::<i32>().report(&mut sink);
    assert!(r.is_err());
    assert_eq!(sink.diagnostics().len(), 1);
    assert_eq!(sink.diagnostics()[0].code(), Some("app::input::parse".to_string()));
    assert_eq!(effective(&sink.diagnostics()[0]), Severity::Error);
}

#[test]
fn clear_empties_sink() {
    let mut sink: Sink = VecSink::new(());
    sink.report(Warning::NonZero);
    sink.report(Error::Negative);
    sink.clear();
    assert!(sink.diagnostics().is_empty());
    sink.clear();
    assert!(sink.diagnostics().is_empty());
}

#[test]
fn clear_keeps_the_renderer() {
    let mut sink: VecSink<Diag, &str> = VecSink::new("plain");
    sink.report(Error::Negative);
    sink.clear();
    assert_eq!(*sink.printer(), "plain");
    assert_eq!(sink.into_inner(), Vec::<Diag>::new());
}

#[test]
fn negative_value_reports_error_and_returns_witness() {
    let mut sink: Sink = VecSink::new(());
    let r = validate_generally(-1, &mut sink);
    assert!(r.is_err());
    let diags = sink.into_inner();
    assert_eq!(diags.len(), 1);
    assert_eq!(effective(&diags[0]), Severity::Error);
    assert_eq!(diags[0].code(), Some("app::negative".to_string()));
}

#[test]
fn large_value_reports_warning_and_continues() {
    let mut sink: Sink = VecSink::new(());
    let r = validate_generally(7, &mut sink);
    assert_eq!(r, Ok(7));
    let diags = sink.into_inner();
    assert_eq!(diags.len(), 1);
    assert_eq!(effective(&diags[0]), Severity::Warning);
    assert_eq!(diags[0].code(), Some("app::int_size::too_large".to_string()));
}

#[test]
fn small_value_reports_nothing() {
    let mut sink: Sink = VecSink::new(());
    assert_eq!(validate_generally(3, &mut sink), Ok(3));
    assert!(sink.diagnostics().is_empty());
}

#[test]
fn first_fatal_check_short_circuits() {
    fn second_check(evaluated: &mut bool) -> Result<(), Error> {
        *evaluated = true;
        Err(Error::Negative)
    }
    fn both(sink: &mut Sink, evaluated: &mut bool) -> Result<(), Reported<Error>> {
        "x".parse::<i32>().report(sink)?;
        second_check(evaluated).report(sink)?;
        Ok(())
    }
    let mut sink: Sink = VecSink::new(());
    let mut evaluated = false;
    assert!(both(&mut sink, &mut evaluated).is_err());
    assert!(!evaluated);
    let diags = sink.into_inner();
    assert_eq!(diags.len(), 1);
    assert_eq!(diags[0].code(), Some("app::input::parse".to_string()));
}

#[test]
fn witness_propagates_unchanged() {
    fn inner(sink: &mut Sink) -> Result<i32, Reported<Error>> {
        check_non_negative(-5).report(sink)?;
        Ok(1)
    }
    fn outer(sink: &mut Sink) -> Result<i32, Reported<Error>> {
        let v = inner(sink)?;
        Ok(v + 1)
    }
    let mut sink: Sink = VecSink::new(());
    let r = outer(&mut sink);
    let w = r.unwrap_err();
    let copy = w.clone();
    assert_eq!(w, copy);
    assert_eq!(w.message(), "Errors were reported");
    assert_eq!(sink.diagnostics().len(), 1);
}

#[test]
fn severities_are_ordered_by_fatality() {
    assert!(Severity::Advice < Severity::Warning);
    assert!(Severity::Warning < Severity::Error);
    assert!(Severity::Advice < Severity::Error);
}

#[test]
fn boxed_diagnostic_answers_for_its_content() {
    let boxed: Box<dyn Diagnostic> = Box::new(Error::Negative);
    assert_eq!(boxed.severity(), None);
    assert_eq!(boxed.code(), Some("app::negative".to_string()));
    assert_eq!(boxed.message(), "negative numbers are not allowed");
    assert_eq!(boxed.help(), Some("try something that isn't negative".to_string()));
    assert_eq!(boxed.labels(), Vec::new());
    assert_eq!(boxed.source_code(), None);
}
