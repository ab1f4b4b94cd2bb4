//! One generated file while it is put together: its text so far and the
//! files it depends on.
use crate::text::{push_char, replace, replaced, views};
use vstd::prelude::*;
use vstd::string::StringExecFns;

verus! {

/// A set of file paths. Each path is kept once, whatever the order and
/// number of insertions.
#[derive(Debug)]
pub struct IncludeSet {
    items: Vec<String>,
}

impl IncludeSet {
    /// No path is kept twice. Every set that this module hands out is so,
    /// and its methods keep it so.
    pub closed spec fn wf(&self) -> bool {
        views(self.items@).no_duplicates()
    }

    /// The paths in the set.
    pub closed spec fn view(&self) -> Set<Seq<char>> {
        views(self.items@).to_set()
    }

    /// The empty set.
    pub fn new() -> (r: IncludeSet)
        ensures
            r.wf(),
            r@ == Set::<Seq<char>>::empty(),
    {
        let r = IncludeSet { items: Vec::new() };
        proof {
            assert(views(r.items@) =~= Seq::<Seq<char>>::empty());
            assert(r@ =~= Set::<Seq<char>>::empty());
        }
        r
    }

    /// The position of `path` among the items, if it is there.
    fn position(&self, path: &str) -> (r: Option<usize>)
        ensures
            match r {
                Some(i) => i < self.items@.len() && self.items@[i as int]@ == path@,
                None => !self@.contains(path@),
            },
    {
        let needle = String::from_str(path);
        let mut i: usize = 0;
        while i < self.items.len()
            invariant
                i <= self.items@.len(),
                needle@ == path@,
                forall|j: int| 0 <= j < i ==> self.items@[j]@ != path@,
            decreases self.items.len() - i,
        {
            if self.items[i] == needle {
                return Some(i);
            }
            i += 1;
        }
        proof {
            let vs = views(self.items@);
            assert forall|j: int| 0 <= j < vs.len() implies vs[j] != path@ by {
                assert(vs[j] == self.items@[j]@);
            }
        }
        None
    }

    /// Whether `path` is in the set.
    pub fn contains(&self, path: &str) -> (r: bool)
        ensures
            r == self@.contains(path@),
    {
        match self.position(path) {
            Some(i) => {
                proof {
                    assert(views(self.items@)[i as int] == path@);
                }
                true
            },
            None => false,
        }
    }

    /// Adds `path`; says whether it was new.
    pub fn insert(&mut self, path: String) -> (r: bool)
        requires
            old(self).wf(),
        ensures
            final(self).wf(),
            final(self)@ == old(self)@.insert(path@),
            r == !old(self)@.contains(path@),
    {
        match self.position(path.as_str()) {
            Some(i) => {
                proof {
                    assert(views(self.items@)[i as int] == path@);
                    assert(self@ =~= self@.insert(path@));
                }
                false
            },
            None => {
                let ghost before = views(self.items@);
                self.items.push(path);
                proof {
                    let after = views(self.items@);
                    assert(after =~= before.push(path@));
                    assert(!before.contains(path@));
                    assert(after.no_duplicates());
                    assert(after.to_set() =~= before.to_set().insert(path@)) by {
                        assert forall|x: Seq<char>| after.to_set().contains(x) implies before.to_set().insert(
                            path@,
                        ).contains(x) by {
                            let j = choose|j: int| 0 <= j < after.len() && after[j] == x;
                            if j < before.len() {
                                assert(before[j] == x);
                            }
                        }
                        assert forall|x: Seq<char>|
                            before.to_set().insert(path@).contains(x) implies after.to_set().contains(
                            x,
                        ) by {
                            if x == path@ {
                                assert(after[before.len() as int] == x);
                            } else {
                                let j = choose|j: int| 0 <= j < before.len() && before[j] == x;
                                assert(after[j] == x);
                            }
                        }
                    }
                }
                true
            },
        }
    }

    /// Takes `path` out; says whether it was there.
    pub fn remove(&mut self, path: &str) -> (r: bool)
        requires
            old(self).wf(),
        ensures
            final(self).wf(),
            final(self)@ == old(self)@.remove(path@),
            r == old(self)@.contains(path@),
    {
        match self.position(path) {
            Some(i) => {
                let ghost before = views(self.items@);
                self.items.remove(i);
                proof {
                    let after = views(self.items@);
                    assert(after =~= before.remove(i as int));
                    assert(before[i as int] == path@);
                    assert(after.no_duplicates()) by {
                        assert forall|a: int, b: int|
                            0 <= a < after.len() && 0 <= b < after.len() && a != b implies after[a]
                            != after[b] by {
                            let a2 = if a < i { a } else { a + 1 };
                            let b2 = if b < i { b } else { b + 1 };
                            assert(after[a] == before[a2]);
                            assert(after[b] == before[b2]);
                        }
                    }
                    assert(after.to_set() =~= before.to_set().remove(path@)) by {
                        assert forall|x: Seq<char>| after.to_set().contains(x) implies before.to_set().remove(
                            path@,
                        ).contains(x) by {
                            let j = choose|j: int| 0 <= j < after.len() && after[j] == x;
                            let j2 = if j < i { j } else { j + 1 };
                            assert(before[j2] == x);
                            assert(j2 != i);
                        }
                        assert forall|x: Seq<char>|
                            before.to_set().remove(path@).contains(x) implies after.to_set().contains(
                            x,
                        ) by {
                            let j = choose|j: int| 0 <= j < before.len() && before[j] == x;
                            assert(j != i);
                            let j2 = if j < i { j } else { j - 1 };
                            assert(after[j2] == x);
                        }
                    }
                }
                true
            },
            None => {
                proof {
                    assert(self@ =~= self@.remove(path@));
                }
                false
            },
        }
    }

    /// The number of paths in the set.
    pub fn len(&self) -> (r: usize)
        requires
            self.wf(),
        ensures
            r == self@.len(),
            self@.finite(),
    {
        proof {
            views(self.items@).unique_seq_to_set();
        }
        self.items.len()
    }

    /// Whether the set holds no path.
    pub fn is_empty(&self) -> (r: bool)
        ensures
            r == (self@ == Set::<Seq<char>>::empty()),
    {
        proof {
            if self.items@.len() == 0 {
                assert(self@ =~= Set::<Seq<char>>::empty());
            } else {
                assert(views(self.items@)[0] == self.items@[0]@);
                assert(self@.contains(self.items@[0]@));
            }
        }
        self.items.len() == 0
    }

    /// The paths, each once.
    pub fn paths(&self) -> (r: &Vec<String>)
        ensures
            views(r@).to_set() == self@,
            self.wf() ==> views(r@).no_duplicates(),
    {
        &self.items
    }
}

/// The body that stands for a file without content.
pub open spec fn empty_body_placeholder() -> Seq<char> {
    "// No Content\n\n"@
}

/// The guard token of the file at `path`.
pub open spec fn header_guard_of(path: Seq<char>) -> Seq<char> {
    replaced(replaced(path, ".d.h"@, "_D_H"@), ".h"@, "_H"@)
}

/// The body as it is written out: the placeholder for an empty body, else
/// the body with every tab replaced by the indentation.
pub open spec fn rendered_body_of(body: Seq<char>, indent: Seq<char>) -> Seq<char> {
    if body.len() == 0 {
        empty_body_placeholder()
    } else {
        replaced(body, "\t"@, indent)
    }
}

/// The text of a file as it is stored: what was rendered, and one
/// newline after it.
pub fn close_file(rendered: String) -> (r: String)
    ensures
        r@ == rendered@.push('\n'),
{
    let mut text = rendered;
    push_char(&mut text, '\n');
    text
}

/// A file that nothing was written to is rendered with the placeholder as
/// its body, which is not empty.
pub proof fn lemma_fresh_header_has_placeholder(h: Header, path: Seq<char>)
    requires
        h.is_fresh(path),
    ensures
        rendered_body_of(h.body@, h.indent_str@) == empty_body_placeholder(),
        rendered_body_of(h.body@, h.indent_str@).len() > 0,
{
    reveal_strlit("// No Content\n\n");
}

/// A file built up piece by piece, without knowing in advance which other
/// files it will depend on.
#[derive(Debug)]
pub struct Header {
    /// The path of the file.
    pub path: String,
    /// The files that this one depends on.
    pub includes: IncludeSet,
    /// The file with the declaration that belongs to this file of methods;
    /// none where this is not a file of methods.
    pub decl_include: Option<String>,
    /// The text of the file: usually a type definition and methods, with a
    /// tab for each level of indentation.
    pub body: String,
    /// What a tab is written out as.
    pub indent_str: &'static str,
}

impl Default for Header {
    /// A file without a path, without text and without indentation.
    fn default() -> (r: Header)
        ensures
            r.wf(),
            r.path@ == Seq::<char>::empty(),
            r.includes@ == Set::<Seq<char>>::empty(),
            r.decl_include is None,
            r.body@ == Seq::<char>::empty(),
            r.indent_str@ == Seq::<char>::empty(),
    {
        proof {
            reveal_strlit("");
            assert(""@ =~= Seq::<char>::empty());
        }
        Header {
            path: String::new(),
            includes: IncludeSet::new(),
            decl_include: None,
            body: String::new(),
            indent_str: "",
        }
    }
}

impl Header {
    /// The companion declaration by its characters.
    pub open spec fn decl_include_view(&self) -> Option<Seq<char>> {
        match self.decl_include {
            Some(s) => Some(s@),
            None => None,
        }
    }

    /// The include set keeps each path once.
    pub open spec fn wf(&self) -> bool {
        self.includes.wf()
    }

    /// Whether the file is as `new` makes it for `path`.
    pub open spec fn is_fresh(&self, path: Seq<char>) -> bool {
        &&& self.wf()
        &&& self.path@ == path
        &&& self.includes@ == Set::<Seq<char>>::empty()
        &&& self.decl_include is None
        &&& self.body@ == Seq::<char>::empty()
        &&& self.indent_str@ == "  "@
    }

    /// Whether this file differs from `other` in its includes at most.
    pub open spec fn same_text_as(&self, other: &Header) -> bool {
        &&& self.path@ == other.path@
        &&& self.decl_include_view() == other.decl_include_view()
        &&& self.body@ == other.body@
        &&& self.indent_str@ == other.indent_str@
    }

    /// An empty file at `path`, indented by two spaces.
    pub fn new(path: String) -> (r: Header)
        ensures
            r.is_fresh(path@),
    {
        Header {
            path,
            includes: IncludeSet::new(),
            decl_include: None,
            body: String::new(),
            indent_str: "  ",
        }
    }

    /// Appends `s` to the body.
    pub fn write_str(&mut self, s: &str)
        ensures
            final(self).body@ == old(self).body@ + s@,
            final(self).path@ == old(self).path@,
            final(self).includes == old(self).includes,
            final(self).decl_include_view() == old(self).decl_include_view(),
            final(self).indent_str@ == old(self).indent_str@,
    {
        self.body.append(s);
    }

    /// Appends `c` to the body.
    pub fn write_char(&mut self, c: char)
        ensures
            final(self).body@ == old(self).body@.push(c),
            final(self).path@ == old(self).path@,
            final(self).includes == old(self).includes,
            final(self).decl_include_view() == old(self).decl_include_view(),
            final(self).indent_str@ == old(self).indent_str@,
    {
        push_char(&mut self.body, c);
    }

    /// The guard token that is derived from the path.
    pub fn header_guard(&self) -> (r: String)
        ensures
            r@ == header_guard_of(self.path@),
    {
        proof {
            reveal_strlit(".d.h");
            reveal_strlit(".h");
        }
        let header_guard = replace(self.path.as_str(), ".d.h", "_D_H");
        replace(header_guard.as_str(), ".h", "_H")
    }

    /// The body as it is written out. An empty body gives the placeholder,
    /// never a blank text.
    pub fn rendered_body(&self) -> (r: String)
        ensures
            r@ == rendered_body_of(self.body@, self.indent_str@),
    {
        if self.body.as_str().is_empty() {
            proof {
                reveal_strlit("// No Content\n\n");
            }
            String::from_str("// No Content\n\n")
        } else {
            proof {
                reveal_strlit("\t");
            }
            replace(self.body.as_str(), "\t", self.indent_str)
        }
    }
}

} // verus!
