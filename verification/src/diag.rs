//! Structural diagnostics: the error taxonomy, a located diagnostic, and the
//! sink that accumulates every independent error found while assembling one
//! declaration.

use vstd::prelude::*;

use crate::SrcLoc;

verus! {

/// The kinds of structural error signature analysis can report.
#[derive(Clone, Copy, Debug, PartialEq, Eq, Structural)]
pub enum ErrorKind {
    StructuralConflict,
    MissingReceiver,
    UnsupportedParameterShape,
    IllegalAttributePlacement,
    UnknownParameter,
    AmbiguousPropertyName,
}

/// One reported error: its kind, a human-readable message, and the source
/// location of the offending element.
#[derive(Debug, PartialEq, Eq)]
pub struct Diagnostic {
    pub kind: ErrorKind,
    pub message: String,
    pub loc: SrcLoc,
}

/// Mathematical model of a [`Diagnostic`].
pub struct DiagnosticV {
    pub kind: ErrorKind,
    pub message: Seq<char>,
    pub loc: SrcLoc,
}

impl View for Diagnostic {
    type V = DiagnosticV;

    open spec fn view(&self) -> DiagnosticV {
        DiagnosticV { kind: self.kind, message: self.message@, loc: self.loc }
    }
}

impl DeepView for Diagnostic {
    type V = DiagnosticV;

    open spec fn deep_view(&self) -> DiagnosticV {
        self.view()
    }
}

impl Clone for Diagnostic {
    fn clone(&self) -> (r: Self)
        ensures
            r@ == self@,
    {
        Diagnostic { kind: self.kind, message: self.message.clone(), loc: self.loc }
    }
}

/// Builds a diagnostic from a message literal.
pub fn diag(kind: ErrorKind, message: &str, loc: SrcLoc) -> (d: Diagnostic)
    ensures
        d@ == (DiagnosticV { kind, message: message@, loc }),
{
    Diagnostic { kind, message: message.to_owned(), loc }
}

/// Accumulates diagnostics in order; assembly of one declaration appends
/// every independent error it finds rather than stopping at the first.
pub struct DiagnosticSink {
    pub entries: Vec<Diagnostic>,
}

impl View for DiagnosticSink {
    type V = Seq<DiagnosticV>;

    open spec fn view(&self) -> Seq<DiagnosticV> {
        self.entries.deep_view()
    }
}

impl DiagnosticSink {
    /// A sink holding no diagnostics.
    pub fn new() -> (s: Self)
        ensures
            s@ == Seq::<DiagnosticV>::empty(),
    {
        let s = DiagnosticSink { entries: Vec::new() };
        assert(s@ =~= Seq::<DiagnosticV>::empty());
        s
    }

    /// Appends one diagnostic, whole, at the end.
    pub fn push(&mut self, d: Diagnostic)
        ensures
            final(self)@ == old(self)@.push(d@),
    {
        self.entries.push(d);
        assert(self@ =~= old(self)@.push(d@));
    }

    /// Appends every diagnostic of `other`, in order.
    pub fn append_all(&mut self, other: &mut DiagnosticSink)
        ensures
            final(self)@ == old(self)@ + old(other)@,
            final(other)@ == Seq::<DiagnosticV>::empty(),
    {
        let mut i: usize = 0;
        let mut taken: Vec<Diagnostic> = Vec::new();
        core::mem::swap(&mut taken, &mut other.entries);
        assert(other@ =~= Seq::<DiagnosticV>::empty());
        while i < taken.len()
            invariant
                i <= taken@.len(),
                taken.deep_view() == old(other)@,
                self@ == old(self)@ + taken.deep_view().subrange(0, i as int),
            decreases taken@.len() - i,
        {
            let ghost pre = self@;
            let d = taken[i].clone();
            self.entries.push(d);
            proof {
                assert(self@ =~= pre.push(taken.deep_view()[i as int]));
                assert(self@ =~= old(self)@ + taken.deep_view().subrange(0, i as int + 1));
            }
            i += 1;
        }
        assert(taken.deep_view().subrange(0, taken@.len() as int) =~= taken.deep_view());
    }

    /// Appends a rejected declaration's whole diagnostic list, in order.
    pub fn absorb(&mut self, diags: Vec<Diagnostic>)
        ensures
            final(self)@ == old(self)@ + diags.deep_view(),
    {
        append_diags(&mut self.entries, &diags);
    }

    /// How many diagnostics have been recorded.
    pub fn len(&self) -> (n: usize)
        ensures
            n == self@.len(),
    {
        self.entries.len()
    }

    /// Hands the recorded diagnostics out, in order.
    pub fn into_entries(self) -> (v: Vec<Diagnostic>)
        ensures
            v.deep_view() == self@,
    {
        self.entries
    }
}

/// Appends every diagnostic of `src` to `dst`, in order.
pub fn append_diags(dst: &mut Vec<Diagnostic>, src: &Vec<Diagnostic>)
    ensures
        final(dst).deep_view() == old(dst).deep_view() + src.deep_view(),
{
    let mut i: usize = 0;
    while i < src.len()
        invariant
            i <= src@.len(),
            dst.deep_view() == old(dst).deep_view() + src.deep_view().subrange(0, i as int),
        decreases src@.len() - i,
    {
        let ghost pre = dst.deep_view();
        dst.push(src[i].clone());
        proof {
            assert(dst.deep_view() =~= pre.push(src.deep_view()[i as int]));
            assert(dst.deep_view() =~= old(dst).deep_view() + src.deep_view().subrange(
                0,
                i as int + 1,
            ));
        }
        i += 1;
    }
    assert(src.deep_view().subrange(0, src@.len() as int) =~= src.deep_view());
}

} // verus!
