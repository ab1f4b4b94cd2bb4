//! Hard failures of the lowering, and the collector of soft diagnostics.
use vstd::prelude::*;

verus! {

/// Why the generation of a definition was given up.
#[derive(Clone, Copy, Debug, PartialEq, Eq, Structural)]
pub enum LoweringError {
    /// A 128-bit integer, which has no representation on the ABI.
    UnsupportedPrimitive,
    /// A callback anywhere but directly in argument position.
    CallbackOutsideArgument,
    /// An optional wrapper around anything but a primitive, a struct or an enum.
    InvalidOptionInner,
    /// The success spelling of a fallible or nullable return has no tag.
    UnknownResultSpelling,
    /// A symbol of one kind where one of another kind was expected.
    SymbolKindMismatch,
    /// An identifier that the type universe does not hold.
    UnresolvedSymbol,
}

impl LoweringError {
    /// A sentence for the user.
    pub fn message(&self) -> (r: &'static str)
        ensures
            r@ == match *self {
                LoweringError::UnsupportedPrimitive => "128-bit integers are not supported on the ABI"@,
                LoweringError::CallbackOutsideArgument => "callbacks are only allowed as arguments"@,
                LoweringError::InvalidOptionInner => "this type is not allowed inside an option"@,
                LoweringError::UnknownResultSpelling => "no result type is known for this success type"@,
                LoweringError::SymbolKindMismatch => "unexpected kind of symbol"@,
                LoweringError::UnresolvedSymbol => "unknown symbol"@,
            },
    {
        match self {
            LoweringError::UnsupportedPrimitive => "128-bit integers are not supported on the ABI",
            LoweringError::CallbackOutsideArgument => "callbacks are only allowed as arguments",
            LoweringError::InvalidOptionInner => "this type is not allowed inside an option",
            LoweringError::UnknownResultSpelling => "no result type is known for this success type",
            LoweringError::SymbolKindMismatch => "unexpected kind of symbol",
            LoweringError::UnresolvedSymbol => "unknown symbol",
        }
    }
}

/// The definition and method that diagnostics are attributed to.
#[derive(Debug)]
pub struct ErrorContext {
    pub ty: String,
    pub method: String,
}

/// A context by its characters: the definition, then the method.
pub type ContextView = (Seq<char>, Seq<char>);

impl ErrorContext {
    pub open spec fn view(&self) -> ContextView {
        (self.ty@, self.method@)
    }

    /// The context outside any definition.
    pub fn new() -> (r: ErrorContext)
        ensures
            r@ == (Seq::<char>::empty(), Seq::<char>::empty()),
    {
        ErrorContext { ty: String::new(), method: String::new() }
    }

    /// A copy of this context.
    pub fn duplicate(&self) -> (r: ErrorContext)
        ensures
            r@ == self@,
    {
        ErrorContext { ty: self.ty.clone(), method: self.method.clone() }
    }
}

/// One collected diagnostic with the context it was raised in.
#[derive(Debug)]
pub struct Diagnostic {
    pub context: ErrorContext,
    pub message: String,
}

impl Diagnostic {
    /// The context and the message, by their characters.
    pub open spec fn view(&self) -> (ContextView, Seq<char>) {
        (self.context@, self.message@)
    }
}

/// Collects soft diagnostics, each under the context that was current when
/// it was raised. Contexts nest like a stack: whoever sets one puts the
/// previous one back when done.
#[derive(Debug)]
pub struct ErrorStore {
    pub context: ErrorContext,
    pub errors: Vec<Diagnostic>,
}

impl ErrorStore {
    /// The current context.
    pub open spec fn current(&self) -> ContextView {
        self.context@
    }

    /// The diagnostics collected so far, oldest first.
    pub open spec fn entries(&self) -> Seq<(ContextView, Seq<char>)> {
        self.errors@.map_values(|d: Diagnostic| d@)
    }

    /// `messages`, each under the context `cx`.
    pub open spec fn under(cx: ContextView, messages: Seq<Seq<char>>) -> Seq<(ContextView, Seq<char>)> {
        messages.map_values(|m: Seq<char>| (cx, m))
    }

    /// An empty store outside any definition.
    pub fn new() -> (r: ErrorStore)
        ensures
            r.current() == (Seq::<char>::empty(), Seq::<char>::empty()),
            r.entries() == Seq::<(ContextView, Seq<char>)>::empty(),
    {
        let r = ErrorStore { context: ErrorContext::new(), errors: Vec::new() };
        proof {
            assert(r.entries() =~= Seq::<(ContextView, Seq<char>)>::empty());
        }
        r
    }

    /// Makes `(ty, method)` the current context and hands back the one that
    /// was current, for `restore_context`.
    pub fn set_context_method(&mut self, ty: String, method: String) -> (previous: ErrorContext)
        ensures
            previous@ == old(self).current(),
            final(self).current() == (ty@, method@),
            final(self).entries() == old(self).entries(),
    {
        let mut cx = ErrorContext { ty, method };
        std::mem::swap(&mut self.context, &mut cx);
        cx
    }

    /// Puts back a context that `set_context_method` handed out.
    pub fn restore_context(&mut self, previous: ErrorContext)
        ensures
            final(self).current() == previous@,
            final(self).entries() == old(self).entries(),
    {
        self.context = previous;
    }

    /// Records `message` under the current context.
    pub fn push_error(&mut self, message: String)
        ensures
            final(self).current() == old(self).current(),
            final(self).entries() == old(self).entries().push((old(self).current(), message@)),
    {
        let context = self.context.duplicate();
        self.errors.push(Diagnostic { context, message });
        proof {
            assert(self.entries() =~= old(self).entries().push((old(self).current(), message@)));
        }
    }

    /// Hands out everything collected and leaves the store empty.
    pub fn take_all(&mut self) -> (r: Vec<Diagnostic>)
        ensures
            r@.map_values(|d: Diagnostic| d@) == old(self).entries(),
            final(self).entries() == Seq::<(ContextView, Seq<char>)>::empty(),
            final(self).current() == old(self).current(),
    {
        let mut out: Vec<Diagnostic> = Vec::new();
        std::mem::swap(&mut self.errors, &mut out);
        proof {
            assert(self.entries() =~= Seq::<(ContextView, Seq<char>)>::empty());
        }
        out
    }
}

} // verus!
