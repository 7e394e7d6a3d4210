use vstd::prelude::*;

use crate::diagnostic::Diagnostic;

verus! {

/// Relies on std's `impl<T> From<T> for T`: it returns its argument
/// unchanged, so a diagnostic reported into a sink of its own kind is stored
/// as it is.
pub assume_specification<V>[ <V as std::convert::From<V>>::from ](t: V) -> (r: V)
    ensures
        r == t,
;

/// `s` is a value that converting `d` may give.
pub open spec fn converts_to<D, S: From<D>>(d: D, s: S) -> bool {
    call_ensures(S::from, (d,), s)
}

/// Something that accepts diagnostics of kind `D`.
pub trait DiagnosticSink<D> {
    /// `self` is what `before` became by accepting `diagnostic` once.
    spec fn accepted(&self, before: &Self, diagnostic: D) -> bool;

    /// Takes the diagnostic in; reporting never fails.
    fn report(&mut self, diagnostic: D)
        ensures
            final(self).accepted(old(self), diagnostic),
    ;
}

/// A sink that keeps its diagnostics in the order they came, together with
/// the renderer that presents them.
pub struct VecSink<D, P> {
    inner: Vec<D>,
    printer: P,
}

impl<D, P> View for VecSink<D, P> {
    type V = Seq<D>;

    closed spec fn view(&self) -> Seq<D> {
        self.inner@
    }
}

impl<D, P> VecSink<D, P> {
    /// The renderer the sink was made with.
    pub closed spec fn renderer(&self) -> P {
        self.printer
    }

    /// An empty sink that renders with `printer`.
    pub fn new(printer: P) -> (r: Self)
        ensures
            r@ == Seq::<D>::empty(),
            r.renderer() == printer,
    {
        VecSink { inner: Vec::new(), printer }
    }

    /// Forgets every diagnostic held; the renderer stays.
    pub fn clear(&mut self)
        ensures
            final(self)@ == Seq::<D>::empty(),
            final(self).renderer() == old(self).renderer(),
    {
        self.inner.clear();
    }

    /// The diagnostics held, oldest first.
    pub fn diagnostics(&self) -> (r: &[D])
        ensures
            r@ == self@,
    {
        self.inner.as_slice()
    }

    /// The renderer the sink was made with.
    pub fn printer(&self) -> (r: &P)
        ensures
            *r == self.renderer(),
    {
        &self.printer
    }

    /// Gives up the sink and returns its diagnostics, oldest first.
    pub fn into_inner(self) -> (r: Vec<D>)
        ensures
            r@ == self@,
    {
        self.inner
    }
}

impl<S: Diagnostic, D, P> DiagnosticSink<D> for VecSink<S, P> where S: From<D> {
    /// One more diagnostic at the end, converted from the one reported.
    open spec fn accepted(&self, before: &Self, diagnostic: D) -> bool {
        &&& self@.len() == before@.len() + 1
        &&& self@.drop_last() == before@
        &&& converts_to(diagnostic, self@.last())
        &&& self.renderer() == before.renderer()
    }

    fn report(&mut self, diagnostic: D) {
        let convert = S::from;
        let stored = convert(diagnostic);
        self.inner.push(stored);
        assert(self.inner@.drop_last() =~= old(self).inner@);
    }
}

/// Diagnostics reported one after another into an empty sink are held in
/// exactly that order, none lost and none repeated.
pub proof fn lemma_reports_kept_in_order<D: Diagnostic, P>(
    states: Seq<VecSink<D, P>>,
    reported: Seq<D>,
)
    requires
        states.len() == reported.len() + 1,
        states[0]@ == Seq::<D>::empty(),
        forall|i: int|
            0 <= i < reported.len() ==> #[trigger] <VecSink<D, P> as DiagnosticSink<D>>::accepted(
                &states[i + 1],
                &states[i],
                reported[i],
            ),
    ensures
        states.last()@ == reported,
    decreases reported.len(),
{
    if reported.len() > 0 {
        let n = reported.len() - 1;
        lemma_reports_kept_in_order(states.take(n + 1), reported.take(n));
        assert(<VecSink<D, P> as DiagnosticSink<D>>::accepted(&states[n + 1], &states[n], reported[n]));
        assert(states.take(n + 1).last() == states[n]);
        assert(converts_to(reported[n], states[n + 1]@.last()));
        assert(states[n]@ == reported.take(n));
        assert(states[n + 1]@ =~= states[n + 1]@.drop_last().push(states[n + 1]@.last()));
        assert(states.last()@ =~= reported);
    }
}

} // verus!
