//! Sinks that take diagnostics of any kind, each behind a box.
use vstd::prelude::*;

use crate::diagnostic::{Diagnostic, Reportable};
use crate::reported::Reported;
use crate::sink::DiagnosticSink;

verus! {

/// A diagnostic of any kind.
pub type BoxedDiag = Box<dyn Diagnostic + 'static>;

/// Something that accepts boxed diagnostics of any kind.
pub trait DynDiagnosticSink {
    /// The diagnostics taken in so far, oldest first.
    spec fn held(&self) -> Seq<BoxedDiag>;

    /// Takes the diagnostic in, at the end; reporting never fails.
    ///
    /// The length and prefix clauses restate part of the first one in a
    /// form that callers keep: at a call site Verus loses a clause that
    /// names a trait-object value.
    fn report_boxed(&mut self, diag: BoxedDiag)
        ensures
            final(self).held() == old(self).held().push(diag),
            final(self).held().len() == old(self).held().len() + 1,
            final(self).held().drop_last() == old(self).held(),
    ;
}

impl<'a> dyn DynDiagnosticSink + 'a {
    /// Boxes `diag` and reports it: one diagnostic more, at the end.
    pub fn report(&mut self, diag: impl Diagnostic + 'static)
        ensures
            final(self).held().len() == old(self).held().len() + 1,
            final(self).held().drop_last() == old(self).held(),
    {
        self.report_boxed(Box::new(diag));
    }
}

/// Reporting the failure of a `Result` into a sink of boxed diagnostics.
pub trait DynResultExt<T, D: Reportable>: Sized {
    /// The value carried on success; `None` on failure.
    spec fn success(&self) -> Option<T>;

    /// Passes a success through and leaves the sink alone; on failure,
    /// reports the converted diagnostic into `sink` exactly once, at the
    /// end, and returns the witness in place of the original error.
    fn report<S: DynDiagnosticSink + ?Sized>(self, sink: &mut S) -> (r: Result<T, Reported<D>>)
        ensures
            self.success() is Some ==> (r == Ok::<T, Reported<D>>(self.success()->Some_0)
                && final(sink).held() == old(sink).held()),
            self.success() is None ==> (r == Err::<T, Reported<D>>(Reported::<D>::witness())
                && final(sink).held().len() == old(sink).held().len() + 1
                && final(sink).held().drop_last() == old(sink).held()),
    ;
}

/// A failure `E` that converts into the diagnostic kind `D` can be reported.
impl<T, E, D: Reportable + From<E> + 'static> DynResultExt<T, D> for Result<T, E> {
    open spec fn success(&self) -> Option<T> {
        match *self {
            Ok(v) => Some(v),
            Err(_) => None,
        }
    }

    fn report<S: DynDiagnosticSink + ?Sized>(self, sink: &mut S) -> (r: Result<T, Reported<D>>) {
        match self {
            Ok(x) => Ok(x),
            Err(e) => {
                let d = D::from(e);
                sink.report_boxed(Box::new(d));
                Err(Reported::new())
            },
        }
    }
}

/// A sink that keeps boxed diagnostics of any kind in the order they came,
/// together with the renderer that presents them.
pub struct VecSink<P> {
    inner: Vec<BoxedDiag>,
    printer: P,
}

impl<P> View for VecSink<P> {
    type V = Seq<BoxedDiag>;

    closed spec fn view(&self) -> Seq<BoxedDiag> {
        self.inner@
    }
}

impl<P> DynDiagnosticSink for VecSink<P> {
    open spec fn held(&self) -> Seq<BoxedDiag> {
        self@
    }

    fn report_boxed(&mut self, diag: BoxedDiag)
        ensures
            final(self).renderer() == old(self).renderer(),
    {
        let ghost before = self.inner@;
        self.inner.push(diag);
        proof {
            vstd::seq::axiom_seq_push_len::<BoxedDiag>(before, diag);
            assert forall|i: int| 0 <= i < before.len() implies #[trigger] self.inner@[i]
                == before[i] by {
                vstd::seq::axiom_seq_push_index_different::<BoxedDiag>(before, diag, i);
            }
            assert(self.inner@.drop_last() =~= before);
        }
    }
}

/// So that a sink of boxed diagnostics can stand wherever a sink is expected,
/// for instance inside a `LoggingSink`.
impl<P> DiagnosticSink<BoxedDiag> for VecSink<P> {
    /// One more diagnostic, at the end, exactly the one reported.
    open spec fn accepted(&self, before: &Self, diagnostic: BoxedDiag) -> bool {
        &&& self@ == before@.push(diagnostic)
        &&& self@.len() == before@.len() + 1
        &&& self@.drop_last() == before@
        &&& self.renderer() == before.renderer()
    }

    fn report(&mut self, diagnostic: BoxedDiag) {
        let ghost before = self.inner@;
        self.inner.push(diagnostic);
        proof {
            vstd::seq::axiom_seq_push_len::<BoxedDiag>(before, diagnostic);
            assert forall|i: int| 0 <= i < before.len() implies #[trigger] self.inner@[i]
                == before[i] by {
                vstd::seq::axiom_seq_push_index_different::<BoxedDiag>(before, diagnostic, i);
            }
            assert(self.inner@.drop_last() =~= before);
        }
    }
}

impl<P> VecSink<P> {
    /// The renderer the sink was made with.
    pub closed spec fn renderer(&self) -> P {
        self.printer
    }

    /// Boxes `diag` and reports it, for a caller that holds the sink itself
    /// rather than a `&mut dyn DynDiagnosticSink`.
    pub fn report(&mut self, diag: impl Diagnostic + 'static)
        where
            Self: Sized,
        ensures
            final(self)@.len() == old(self)@.len() + 1,
            final(self)@.drop_last() == old(self)@,
            final(self).renderer() == old(self).renderer(),
    {
        self.report_boxed(Box::new(diag));
    }

    /// An empty sink that renders with `printer`.
    pub fn new(printer: P) -> (r: Self)
        ensures
            r@ == Seq::<BoxedDiag>::empty(),
            r.renderer() == printer,
    {
        VecSink { inner: Vec::new(), printer }
    }

    /// Forgets every diagnostic held; the renderer stays.
    pub fn clear(&mut self)
        ensures
            final(self)@ == Seq::<BoxedDiag>::empty(),
            final(self).renderer() == old(self).renderer(),
    {
        self.inner.clear();
    }

    /// The diagnostics held, oldest first.
    pub fn diagnostics(&self) -> (r: &[BoxedDiag])
        ensures
            r@ == self@,
    {
        self.inner.as_slice()
    }

    /// The renderer the sink was made with.
    pub fn printer(&self) -> (r: &P)
        ensures
            *r == self.renderer(),
    {
        &self.printer
    }

    /// Gives up the sink and returns its diagnostics, oldest first.
    pub fn into_inner(self) -> (r: Vec<BoxedDiag>)
        ensures
            r@ == self@,
    {
        self.inner
    }
}

} // verus!
