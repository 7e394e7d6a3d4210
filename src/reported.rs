use vstd::prelude::*;

use core::marker::PhantomData;

use crate::diagnostic::Reportable;
use crate::sink::DiagnosticSink;

verus! {

/// A zero-sized error that says: a diagnostic of kind `D` has been sent to a
/// sink already.
///
/// Only reporting makes one, and it is no `Diagnostic` itself, so it cannot be
/// reported a second time.
#[derive(Debug, Copy, PartialEq, Eq, Hash)]
pub struct Reported<D: Reportable>(PhantomData<D>);

impl<D: Reportable> Clone for Reported<D> {
    fn clone(&self) -> (r: Self)
        ensures
            r == *self,
    {
        Reported(PhantomData)
    }
}

impl<D: Reportable> Reported<D> {
    /// The one value a witness of kind `D` has.
    pub closed spec fn witness() -> Self {
        Reported(PhantomData)
    }

    /// Made only by the adapters, right after the sink took the diagnostic.
    pub(crate) fn new() -> (r: Self)
        ensures
            r == Self::witness(),
    {
        Reported(PhantomData)
    }

    /// The text that stands for the witness when it is shown.
    pub fn message(&self) -> (r: String)
        ensures
            r@ == "Errors were reported"@,
    {
        String::from_str("Errors were reported")
    }
}

/// Reporting the failure of a `Result` into a sink.
pub trait ResultExt<T, D: Reportable>: Sized {
    /// The value carried on success; `None` on failure.
    spec fn success(&self) -> Option<T>;

    /// `self` is a failure that converts into the diagnostic `d`.
    spec fn fails_as(&self, d: D) -> bool;

    /// Passes a success through and leaves the sink alone; on failure,
    /// reports the converted diagnostic into `sink` exactly once and returns
    /// the witness in place of the original error.
    fn report<S: DiagnosticSink<D>>(self, sink: &mut S) -> (r: Result<T, Reported<D>>)
        ensures
            self.success() is Some ==> (r == Ok::<T, Reported<D>>(
                self.success()->Some_0,
            ) && *final(sink) == *old(sink)),
            self.success() is None ==> r == Err::<T, Reported<D>>(Reported::<D>::witness())
                && exists|d: D| #[trigger]
                self.fails_as(d) && final(sink).accepted(old(sink), d),
    ;
}

/// A failure `E` that converts into the diagnostic kind `D` can be reported.
impl<T, E, D: Reportable + From<E>> ResultExt<T, D> for Result<T, E> {
    open spec fn success(&self) -> Option<T> {
        match *self {
            Ok(v) => Some(v),
            Err(_) => None,
        }
    }

    open spec fn fails_as(&self, d: D) -> bool {
        match *self {
            Ok(_) => false,
            Err(e) => crate::sink::converts_to(e, d),
        }
    }

    fn report<S: DiagnosticSink<D>>(self, sink: &mut S) -> (r: Result<T, Reported<D>>) {
        match self {
            Ok(x) => Ok(x),
            Err(e) => {
                let convert = D::from;
                let d = convert(e);
                sink.report(d);
                assert(<Result<T, E> as ResultExt<T, D>>::fails_as(&self, d));
                Err(Reported::new())
            },
        }
    }
}

} // verus!
