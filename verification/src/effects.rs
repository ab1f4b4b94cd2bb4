//! What a lowering step does to the file being built and to the collected
//! diagnostics.
use crate::errors::{ContextView, ErrorStore};
use crate::header::Header;
use vstd::prelude::*;

verus! {

/// Whether the step from `(h0, e0)` to `(h1, e1)` added just `includes` to
/// the includes of the file and `diagnostics`, under the current context,
/// to the collected diagnostics, and changed nothing else.
pub open spec fn lowered(
    h0: Header,
    h1: Header,
    e0: ErrorStore,
    e1: ErrorStore,
    includes: Set<Seq<char>>,
    diagnostics: Seq<Seq<char>>,
) -> bool {
    &&& h1.wf()
    &&& h1.same_text_as(&h0)
    &&& h1.includes@ == h0.includes@.union(includes)
    &&& e1.current() == e0.current()
    &&& e1.entries() == e0.entries() + ErrorStore::under(e0.current(), diagnostics)
}

/// What holds of a step that was given up: the text of the file and the
/// current context are as before, and nothing was lost: the includes and
/// the diagnostics that were there still are, before any that the step
/// added on its way. The file is to be thrown away.
pub open spec fn abandoned(h0: Header, h1: Header, e0: ErrorStore, e1: ErrorStore) -> bool {
    &&& h1.wf()
    &&& h1.same_text_as(&h0)
    &&& h0.includes@.subset_of(h1.includes@)
    &&& e1.current() == e0.current()
    &&& e0.entries().is_prefix_of(e1.entries())
}

/// Either a step that came to its result with the given effects, or one
/// that was given up.
pub open spec fn lowered_if(
    ok: bool,
    h0: Header,
    h1: Header,
    e0: ErrorStore,
    e1: ErrorStore,
    includes: Set<Seq<char>>,
    diagnostics: Seq<Seq<char>>,
) -> bool {
    if ok {
        lowered(h0, h1, e0, e1, includes, diagnostics)
    } else {
        abandoned(h0, h1, e0, e1)
    }
}

/// A step that does nothing adds nothing.
pub proof fn lemma_lowered_nothing(h: Header, e: ErrorStore)
    requires
        h.wf(),
    ensures
        lowered(h, h, e, e, Set::empty(), Seq::empty()),
{
    assert(h.includes@.union(Set::empty()) =~= h.includes@);
    assert(ErrorStore::under(e.current(), Seq::<Seq<char>>::empty()) =~= Seq::empty());
    assert(e.entries() + Seq::empty() =~= e.entries());
}

/// Two steps in a row add what each of them adds, in that order.
pub proof fn lemma_lowered_then(
    h0: Header,
    h1: Header,
    h2: Header,
    e0: ErrorStore,
    e1: ErrorStore,
    e2: ErrorStore,
    i1: Set<Seq<char>>,
    d1: Seq<Seq<char>>,
    i2: Set<Seq<char>>,
    d2: Seq<Seq<char>>,
)
    requires
        lowered(h0, h1, e0, e1, i1, d1),
        lowered(h1, h2, e1, e2, i2, d2),
    ensures
        lowered(h0, h2, e0, e2, i1.union(i2), d1 + d2),
{
    assert(h0.includes@.union(i1).union(i2) =~= h0.includes@.union(i1.union(i2)));
    let cx = e0.current();
    assert(ErrorStore::under(cx, d1 + d2) =~= ErrorStore::under(cx, d1) + ErrorStore::under(cx, d2));
    assert((e0.entries() + ErrorStore::under(cx, d1)) + ErrorStore::under(cx, d2) =~= e0.entries() + (
    ErrorStore::under(cx, d1) + ErrorStore::under(cx, d2)));
}

/// Whether `h` is a file at `path` without text yet, indented by two
/// spaces, with the given companion declaration and includes.
pub open spec fn is_unit(
    h: Header,
    path: Seq<char>,
    decl_include: Option<Seq<char>>,
    includes: Set<Seq<char>>,
) -> bool {
    &&& h.wf()
    &&& h.path@ == path
    &&& h.body@ == Seq::<char>::empty()
    &&& h.indent_str@ == "  "@
    &&& h.decl_include_view() == decl_include
    &&& h.includes@ == includes
}

/// Whether the step from `e0` to `e1` added just `entries` to the
/// collected diagnostics and left the current context as it was.
pub open spec fn reported(e0: ErrorStore, e1: ErrorStore, entries: Seq<(ContextView, Seq<char>)>) -> bool {
    &&& e1.current() == e0.current()
    &&& e1.entries() == e0.entries() + entries
}

} // verus!
