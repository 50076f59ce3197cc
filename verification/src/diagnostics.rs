use crate::span::Span;
use vstd::prelude::*;

verus! {

/// The closed set of conditions a session can report: every entry of the
/// accumulated diagnostics list is one of these, tagged with a source span.
#[derive(Clone, Copy, Debug, PartialEq, Eq, Structural)]
pub enum ErrorKind {
    /// A syntax, name-resolution or type error from the front end.
    Compile,
    /// A capability violation found by the lowering/capability pass.
    Pass,
    /// A finding of the lint engine.
    Lint,
}

/// One diagnostic: a kind together with the source span it is attached to.
#[derive(Clone, Copy, Debug, PartialEq, Eq, Structural)]
pub struct Error {
    pub kind: ErrorKind,
    pub span: Span,
}

/// The spans `spans`, each tagged with `kind`, in order.
pub open spec fn with_kind(spans: Seq<Span>, kind: ErrorKind) -> Seq<Error> {
    spans.map(|i: int, s: Span| Error { kind, span: s })
}

/// Tagging distributes over concatenation of span lists.
pub proof fn lemma_with_kind_concat(a: Seq<Span>, b: Seq<Span>, kind: ErrorKind)
    ensures
        with_kind(a + b, kind) == with_kind(a, kind) + with_kind(b, kind),
{
    assert(with_kind(a + b, kind) =~= with_kind(a, kind) + with_kind(b, kind));
}

/// Appends every span of `spans`, tagged with `kind`, to `errors`.
///
/// This is the only way diagnostics enter the accumulated list: prior entries
/// are never removed or reordered.
pub fn push_tagged(errors: &mut Vec<Error>, spans: &Vec<Span>, kind: ErrorKind)
    ensures
        final(errors)@ == old(errors)@ + with_kind(spans@, kind),
{
    let ghost initial = errors@;
    let mut i: usize = 0;
    while i < spans.len()
        invariant
            i <= spans.len(),
            errors@ == initial + with_kind(spans@.subrange(0, i as int), kind),
        decreases spans.len() - i,
    {
        errors.push(Error { kind, span: spans[i] });
        proof {
            assert(spans@.subrange(0, i + 1) =~= spans@.subrange(0, i as int).push(spans@[i as int]));
            assert(with_kind(spans@.subrange(0, i + 1), kind) =~= with_kind(
                spans@.subrange(0, i as int),
                kind,
            ).push(Error { kind, span: spans@[i as int] }));
        }
        i += 1;
    }
    proof {
        assert(spans@.subrange(0, spans@.len() as int) =~= spans@);
    }
}

} // verus!
