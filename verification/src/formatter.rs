//! Spellings of identifiers and scalar kinds in the generated code.
use crate::errors::LoweringError;
use crate::hir::{EnumVariant, MaybeOwn, SymbolId, TraitId, Type, TypeContext, TypeId};
use crate::text::{concat2, concat3, lowercase_of, to_lowercase};
use diplomat_core::hir::{FloatType, IntSizeType, IntType, Mutability, PrimitiveType, StringEncoding};
use vstd::prelude::*;
use vstd::string::StringExecFns;

verus! {

/// `Mutability::is_mutable` tells the mutable variant from the other.
pub assume_specification[ Mutability::is_mutable ](m: &Mutability) -> (r: bool)
    ensures
        r == (*m is Mutable),
;

/// `Mutability::is_immutable` tells the immutable variant from the other.
pub assume_specification[ Mutability::is_immutable ](m: &Mutability) -> (r: bool)
    ensures
        r == (*m is Immutable),
;

/// The scalar as it is spelled on the ABI; none for the 128-bit integers.
pub open spec fn primitive_abi_name(prim: PrimitiveType) -> Option<Seq<char>> {
    match prim {
        PrimitiveType::Bool => Some("c_bool"@),
        PrimitiveType::Char => Some("c_char32"@),
        PrimitiveType::Byte => Some("c_uint8"@),
        PrimitiveType::Ordering => Some("c_int8"@),
        PrimitiveType::Int(IntType::I8) => Some("c_int8"@),
        PrimitiveType::Int(IntType::U8) => Some("c_uint8"@),
        PrimitiveType::Int(IntType::I16) => Some("c_int16"@),
        PrimitiveType::Int(IntType::U16) => Some("c_uint16"@),
        PrimitiveType::Int(IntType::I32) => Some("c_int32"@),
        PrimitiveType::Int(IntType::U32) => Some("c_uint32"@),
        PrimitiveType::Int(IntType::I64) => Some("c_int64"@),
        PrimitiveType::Int(IntType::U64) => Some("c_uint64"@),
        PrimitiveType::Int128(_) => None,
        PrimitiveType::IntSize(IntSizeType::Isize) => Some("c_intptr"@),
        PrimitiveType::IntSize(IntSizeType::Usize) => Some("c_size_t"@),
        PrimitiveType::Float(FloatType::F32) => Some("c_float"@),
        PrimitiveType::Float(FloatType::F64) => Some("c_double"@),
    }
}

/// The scalar's short tag inside the names of options, views and results;
/// none for the 128-bit integers.
pub open spec fn primitive_tag(prim: PrimitiveType) -> Option<Seq<char>> {
    match prim {
        PrimitiveType::Bool => Some("Bool"@),
        PrimitiveType::Char => Some("Char"@),
        PrimitiveType::Byte => Some("U8"@),
        PrimitiveType::Ordering => Some("I8"@),
        PrimitiveType::Int(IntType::I8) => Some("I8"@),
        PrimitiveType::Int(IntType::U8) => Some("U8"@),
        PrimitiveType::Int(IntType::I16) => Some("I16"@),
        PrimitiveType::Int(IntType::U16) => Some("U16"@),
        PrimitiveType::Int(IntType::I32) => Some("I32"@),
        PrimitiveType::Int(IntType::U32) => Some("U32"@),
        PrimitiveType::Int(IntType::I64) => Some("I64"@),
        PrimitiveType::Int(IntType::U64) => Some("U64"@),
        PrimitiveType::Int128(_) => None,
        PrimitiveType::IntSize(IntSizeType::Isize) => Some("Isize"@),
        PrimitiveType::IntSize(IntSizeType::Usize) => Some("Usize"@),
        PrimitiveType::Float(FloatType::F32) => Some("F32"@),
        PrimitiveType::Float(FloatType::F64) => Some("F64"@),
    }
}

/// `Some` as success, `None` as the failure `e`.
pub open spec fn ok_or(name: Option<Seq<char>>, e: LoweringError) -> Result<Seq<char>, LoweringError> {
    match name {
        Some(s) => Ok(s),
        None => Err(e),
    }
}

/// The file that holds the bare declaration of the definition called `name`.
pub open spec fn decl_header_path(name: Seq<char>) -> Seq<char> {
    lowercase_of(name) + "_d.mojo"@
}

/// The file that holds the methods of the definition called `name`.
pub open spec fn impl_header_path(name: Seq<char>) -> Seq<char> {
    lowercase_of(name) + ".mojo"@
}

/// The display name behind a symbol, or why there is none.
pub open spec fn name_of_symbol(tcx: &TypeContext, id: SymbolId) -> Result<Seq<char>, LoweringError> {
    match id {
        SymbolId::FunctionId(_) => Err(LoweringError::SymbolKindMismatch),
        _ => ok_or(tcx.symbol_name(id), LoweringError::UnresolvedSymbol),
    }
}

/// `f` applied to a success; a failure as it is.
pub open spec fn map_ok(
    r: Result<Seq<char>, LoweringError>,
    f: spec_fn(Seq<char>) -> Seq<char>,
) -> Result<Seq<char>, LoweringError> {
    match r {
        Ok(s) => Ok(f(s)),
        Err(e) => Err(e),
    }
}

/// The name of the option type around `ty`, whose own name is `ty_name`.
pub open spec fn optional_type_name(ty: Type, ty_name: Seq<char>) -> Result<
    Seq<char>,
    LoweringError,
> {
    match ty {
        Type::Primitive(prim) => map_ok(
            ok_or(primitive_tag(prim), LoweringError::UnsupportedPrimitive),
            |tag: Seq<char>| "Option"@ + tag,
        ),
        Type::Struct(_) | Type::Enum(_) => Ok(ty_name + "_option"@),
        _ => Err(LoweringError::InvalidOptionInner),
    }
}

/// The suffix of a scalar view: empty only for an immutable borrow.
pub open spec fn view_suffix(borrow: MaybeOwn) -> Seq<char> {
    match borrow {
        MaybeOwn::Borrow(Mutability::Immutable) => ""@,
        _ => "Mut"@,
    }
}

/// The name of the view of a run of scalars.
pub open spec fn primitive_slice_name(borrow: MaybeOwn, prim: PrimitiveType) -> Result<
    Seq<char>,
    LoweringError,
> {
    map_ok(
        ok_or(primitive_tag(prim), LoweringError::UnsupportedPrimitive),
        |tag: Seq<char>| "Diplomat"@ + tag + "View"@ + view_suffix(borrow),
    )
}

/// The name of the view of one string.
pub open spec fn str_view_name(encoding: StringEncoding) -> Seq<char> {
    match encoding {
        StringEncoding::UnvalidatedUtf16 => "DiplomatString16View"@,
        _ => "DiplomatStringView"@,
    }
}

/// The name of the view of a run of strings.
pub open spec fn strs_view_name(encoding: StringEncoding) -> Seq<char> {
    match encoding {
        StringEncoding::UnvalidatedUtf16 => "DiplomatStrings16View"@,
        _ => "DiplomatStringsView"@,
    }
}

/// A pointer to a value of the type called `ident`: one that the callee
/// may write through, or one that it may only read through.
pub open spec fn pointer_to(ident: Seq<char>, mutability: Mutability) -> Seq<char> {
    match mutability {
        Mutability::Mutable => "UnsafePointer["@ + ident + "]"@,
        Mutability::Immutable => "UnsafePointer["@ + ident + ", mut=False]"@,
    }
}

/// The mutable and the immutable pointer to the same type are spelled
/// differently, and each spelling holds the name of the type, right after
/// its opening bracket.
pub proof fn lemma_pointer_spellings_differ(ident: Seq<char>)
    ensures
        pointer_to(ident, Mutability::Mutable) != pointer_to(ident, Mutability::Immutable),
        pointer_to(ident, Mutability::Mutable).subrange(14, ident.len() + 14int) == ident,
        pointer_to(ident, Mutability::Immutable).subrange(14, ident.len() + 14int) == ident,
{
    reveal_strlit("UnsafePointer[");
    reveal_strlit("]");
    reveal_strlit(", mut=False]");
    assert(pointer_to(ident, Mutability::Mutable).len() == 14 + ident.len() + 1);
    assert(pointer_to(ident, Mutability::Immutable).len() == 14 + ident.len() + 12);
    assert(pointer_to(ident, Mutability::Mutable).subrange(14, ident.len() + 14int) =~= ident);
    assert(pointer_to(ident, Mutability::Immutable).subrange(14, ident.len() + 14int) =~= ident);
}

/// The flat name of a variant of the enum called `ty_name`.
pub open spec fn enum_variant_name(ty_name: Seq<char>, variant: Seq<char>) -> Seq<char> {
    ty_name + "_"@ + variant
}

/// Whether an executable result of strings is the given specification result.
pub open spec fn is_result(r: Result<String, LoweringError>, s: Result<Seq<char>, LoweringError>) -> bool {
    match r {
        Ok(v) => s == Ok::<Seq<char>, LoweringError>(v@),
        Err(e) => s == Err::<Seq<char>, LoweringError>(e),
    }
}

/// Every scalar but the 128-bit integers has a spelling on the ABI and a
/// tag; the 128-bit integers have neither.
pub proof fn lemma_primitive_tables_cover(prim: PrimitiveType)
    ensures
        primitive_abi_name(prim) is None <==> prim is Int128,
        primitive_tag(prim) is None <==> prim is Int128,
{
}

/// The two files of a definition never have the same path.
pub proof fn lemma_header_paths_differ(name: Seq<char>)
    ensures
        decl_header_path(name) != impl_header_path(name),
{
    reveal_strlit("_d.mojo");
    reveal_strlit(".mojo");
    assert(decl_header_path(name).len() == lowercase_of(name).len() + 7);
    assert(impl_header_path(name).len() == lowercase_of(name).len() + 5);
}

/// The paths of the files of a definition do not depend on the case of its
/// name: two names that are equal but for their case give the same paths.
pub proof fn lemma_header_paths_ignore_case(a: Seq<char>, b: Seq<char>)
    requires
        lowercase_of(a) == lowercase_of(b),
    ensures
        decl_header_path(a) == decl_header_path(b),
        impl_header_path(a) == impl_header_path(b),
{
}

/// Mediates all formatting: every identifier of the type universe goes
/// through here before it reaches the output.
pub struct CFormatter<'tcx> {
    tcx: &'tcx TypeContext,
}

impl<'tcx> CFormatter<'tcx> {
    /// The universe that the formatter reads.
    pub closed spec fn spec_tcx(&self) -> &'tcx TypeContext {
        self.tcx
    }

    pub fn new(tcx: &'tcx TypeContext) -> (r: Self)
        ensures
            r.spec_tcx() == tcx,
    {
        Self { tcx }
    }

    #[verifier::when_used_as_spec(spec_tcx)]
    pub fn tcx(&self) -> (r: &'tcx TypeContext)
        ensures
            r == self.spec_tcx(),
    {
        self.tcx
    }

    /// Whether the universe holds what `id` names, so that it has a name;
    /// else why it has none.
    pub fn check_symbol(&self, id: SymbolId) -> (r: Result<(), LoweringError>)
        ensures
            match r {
                Ok(_) => name_of_symbol(self.tcx(), id) is Ok,
                Err(e) => name_of_symbol(self.tcx(), id) == Err::<Seq<char>, LoweringError>(e),
            },
    {
        match id {
            SymbolId::TypeId(id) => match self.tcx.resolve_type(id) {
                Some(_) => Ok(()),
                None => Err(LoweringError::UnresolvedSymbol),
            },
            SymbolId::TraitId(id) => match self.tcx.resolve_trait(id) {
                Some(_) => Ok(()),
                None => Err(LoweringError::UnresolvedSymbol),
            },
            SymbolId::FunctionId(_) => Err(LoweringError::SymbolKindMismatch),
        }
    }

    /// Whether a scalar has a spelling and a tag: all have but the 128-bit
    /// integers.
    pub fn check_primitive(&self, prim: PrimitiveType) -> (r: Result<(), LoweringError>)
        ensures
            match r {
                Ok(_) => !(prim is Int128),
                Err(e) => prim is Int128 && e == LoweringError::UnsupportedPrimitive,
            },
    {
        match prim {
            PrimitiveType::Int128(_) => Err(LoweringError::UnsupportedPrimitive),
            _ => Ok(()),
        }
    }

    /// Whether `ty` can stand inside an option, whatever its own name is;
    /// else why it cannot.
    pub fn check_optional(&self, ty: &Type) -> (r: Result<(), LoweringError>)
        ensures
            forall|ty_name: Seq<char>|
                match r {
                    Ok(_) => (#[trigger] optional_type_name(*ty, ty_name)) is Ok,
                    Err(e) => optional_type_name(*ty, ty_name) == Err::<Seq<char>, LoweringError>(
                        e,
                    ),
                },
    {
        match ty {
            Type::Primitive(prim) => self.check_primitive(*prim),
            Type::Struct(_) | Type::Enum(_) => Ok(()),
            _ => Err(LoweringError::InvalidOptionInner),
        }
    }

    /// The name of a type for use in code, without a namespace. The
    /// universe has to hold the type.
    pub fn fmt_type_name(&self, id: TypeId) -> (r: String)
        requires
            self.tcx().type_def(id) is Some,
        ensures
            r@ == self.tcx().type_def(id)->0.spec_name(),
    {
        match self.tcx.resolve_type(id) {
            Some(resolved) => resolved.name().clone(),
            None => unreached(),
        }
    }

    /// The name of a trait for use in code, without a namespace. The
    /// universe has to hold the trait.
    pub fn fmt_trait_name(&self, id: TraitId) -> (r: String)
        requires
            self.tcx().trait_def(id) is Some,
        ensures
            r@ == self.tcx().trait_def(id)->0.name@,
    {
        match self.tcx.resolve_trait(id) {
            Some(resolved) => resolved.name.clone(),
            None => unreached(),
        }
    }

    /// The name of the option type around `ty`, given the name of `ty`
    /// itself. Only scalars, structs and enums can be wrapped: anything
    /// else is left out, and so are the 128-bit integers.
    pub fn fmt_optional_type_name(&self, ty: &Type, ty_name: &str) -> (r: String)
        requires
            optional_type_name(*ty, ty_name@) is Ok,
        ensures
            optional_type_name(*ty, ty_name@) == Ok::<Seq<char>, LoweringError>(r@),
    {
        match ty {
            Type::Primitive(prim) => self.diplomat_namespace(
                concat2("Option", self.fmt_primitive_name_for_derived_type(*prim)),
            ),
            Type::Struct(_) | Type::Enum(_) => concat2(ty_name, "_option"),
            _ => unreached(),
        }
    }

    /// The name of a type or trait for use in code, with its namespace
    /// where the target has one. The symbol has to be a type or a trait
    /// that the universe holds.
    pub fn fmt_type_name_maybe_namespaced(&self, id: SymbolId) -> (r: String)
        requires
            name_of_symbol(self.tcx(), id) is Ok,
        ensures
            name_of_symbol(self.tcx(), id) == Ok::<Seq<char>, LoweringError>(r@),
    {
        let name = match id {
            SymbolId::TypeId(id) => self.fmt_type_name(id),
            SymbolId::TraitId(id) => self.fmt_trait_name(id),
            SymbolId::FunctionId(_) => unreached(),
        };
        self.diplomat_namespace(name)
    }

    /// The path of the file with the bare declaration of a definition,
    /// which has to be a type or a trait that the universe holds.
    ///
    /// Enums cannot be declared ahead of their definition, yet their methods
    /// may need other files; so each definition gets a file with just its
    /// shape, which the file with its methods pulls in.
    pub fn fmt_decl_header_path(&self, id: SymbolId) -> (r: String)
        requires
            name_of_symbol(self.tcx(), id) is Ok,
        ensures
            r@ == decl_header_path(name_of_symbol(self.tcx(), id)->Ok_0),
    {
        let ty_name = match id {
            SymbolId::TypeId(id) => self.fmt_type_name(id),
            SymbolId::TraitId(id) => self.fmt_trait_name(id),
            SymbolId::FunctionId(_) => unreached(),
        };
        let ty_name = to_lowercase(ty_name.as_str());
        concat2(ty_name.as_str(), "_d.mojo")
    }

    /// The path of the file with the methods of a definition, which has to
    /// be a type or a trait that the universe holds.
    pub fn fmt_impl_header_path(&self, id: SymbolId) -> (r: String)
        requires
            name_of_symbol(self.tcx(), id) is Ok,
        ensures
            r@ == impl_header_path(name_of_symbol(self.tcx(), id)->Ok_0),
    {
        let ty_name = match id {
            SymbolId::TypeId(id) => self.fmt_type_name(id),
            SymbolId::TraitId(id) => self.fmt_trait_name(id),
            SymbolId::FunctionId(_) => unreached(),
        };
        let ty_name = to_lowercase(ty_name.as_str());
        concat2(ty_name.as_str(), ".mojo")
    }

    /// The flat name of an enum variant.
    pub fn fmt_enum_variant(&self, ty_name: &str, variant: &EnumVariant) -> (r: String)
        ensures
            r@ == enum_variant_name(ty_name@, variant.name@),
    {
        concat3(ty_name, "_", variant.name.as_str())
    }

    /// The name of a field or parameter.
    pub fn fmt_param_name(&self, ident: &str) -> (r: String)
        ensures
            r@ == ident@,
    {
        String::from_str(ident)
    }

    /// A pointer to a value of the type called `ident`. A pointer that is
    /// only read through says so.
    pub fn fmt_ptr(&self, ident: &str, mutability: Mutability) -> (r: String)
        ensures
            r@ == pointer_to(ident@, mutability),
    {
        if mutability.is_mutable() {
            concat3("UnsafePointer[", ident, "]")
        } else {
            concat3("UnsafePointer[", ident, ", mut=False]")
        }
    }

    /// The scalar as it is spelled on the ABI. The 128-bit integers have no
    /// spelling and are left out.
    pub fn fmt_primitive_as_mojo(&self, prim: PrimitiveType) -> (r: &'static str)
        requires
            !(prim is Int128),
        ensures
            primitive_abi_name(prim) == Some(r@),
    {
        match prim {
            PrimitiveType::Bool => "c_bool",
            PrimitiveType::Char => "c_char32",
            PrimitiveType::Int(IntType::I8) | PrimitiveType::Ordering => "c_int8",
            PrimitiveType::Int(IntType::U8) | PrimitiveType::Byte => "c_uint8",
            PrimitiveType::Int(IntType::I16) => "c_int16",
            PrimitiveType::Int(IntType::U16) => "c_uint16",
            PrimitiveType::Int(IntType::I32) => "c_int32",
            PrimitiveType::Int(IntType::U32) => "c_uint32",
            PrimitiveType::Int(IntType::I64) => "c_int64",
            PrimitiveType::Int(IntType::U64) => "c_uint64",
            PrimitiveType::Int128(_) => unreached(),
            PrimitiveType::IntSize(IntSizeType::Isize) => "c_intptr",
            PrimitiveType::IntSize(IntSizeType::Usize) => "c_size_t",
            PrimitiveType::Float(FloatType::F32) => "c_float",
            PrimitiveType::Float(FloatType::F64) => "c_double",
        }
    }

    /// The scalar's tag inside the name of a derived type, such as a view
    /// or an option. The 128-bit integers have no tag and are left out.
    pub fn fmt_primitive_name_for_derived_type(&self, prim: PrimitiveType) -> (r: &'static str)
        requires
            !(prim is Int128),
        ensures
            primitive_tag(prim) == Some(r@),
    {
        match prim {
            PrimitiveType::Bool => "Bool",
            PrimitiveType::Char => "Char",
            PrimitiveType::Int(IntType::I8) | PrimitiveType::Ordering => "I8",
            PrimitiveType::Int(IntType::U8) | PrimitiveType::Byte => "U8",
            PrimitiveType::Int(IntType::I16) => "I16",
            PrimitiveType::Int(IntType::U16) => "U16",
            PrimitiveType::Int(IntType::I32) => "I32",
            PrimitiveType::Int(IntType::U32) => "U32",
            PrimitiveType::Int(IntType::I64) => "I64",
            PrimitiveType::Int(IntType::U64) => "U64",
            PrimitiveType::Int128(_) => unreached(),
            PrimitiveType::IntSize(IntSizeType::Isize) => "Isize",
            PrimitiveType::IntSize(IntSizeType::Usize) => "Usize",
            PrimitiveType::Float(FloatType::F32) => "F32",
            PrimitiveType::Float(FloatType::F64) => "F64",
        }
    }

    /// The name of the view of a run of scalars, which the 128-bit integers
    /// cannot be.
    pub fn fmt_primitive_slice_name(&self, borrow: MaybeOwn, prim: PrimitiveType) -> (r: String)
        requires
            !(prim is Int128),
        ensures
            primitive_slice_name(borrow, prim) == Ok::<Seq<char>, LoweringError>(r@),
    {
        let prim = self.fmt_primitive_name_for_derived_type(prim);
        let mtb = match borrow.mutability() {
            Some(mutability) => if mutability.is_immutable() {
                ""
            } else {
                "Mut"
            },
            None => "Mut",
        };
        let mut name = concat3("Diplomat", prim, "View");
        name.append(mtb);
        self.diplomat_namespace(name)
    }

    /// The name of the sink that text results are written to.
    pub fn fmt_write_name(&self) -> (r: String)
        ensures
            r@ == "DiplomatWrite"@,
    {
        self.diplomat_namespace(String::from_str("DiplomatWrite"))
    }

    /// The name of the view of one string.
    pub fn fmt_str_view_name(&self, encoding: StringEncoding) -> (r: String)
        ensures
            r@ == str_view_name(encoding),
    {
        self.diplomat_namespace(
            String::from_str(
                match encoding {
                    StringEncoding::UnvalidatedUtf16 => "DiplomatString16View",
                    _ => "DiplomatStringView",
                },
            ),
        )
    }

    /// The name of the view of a run of strings.
    pub fn fmt_strs_view_name(&self, encoding: StringEncoding) -> (r: String)
        ensures
            r@ == strs_view_name(encoding),
    {
        self.diplomat_namespace(
            String::from_str(
                match encoding {
                    StringEncoding::UnvalidatedUtf16 => "DiplomatStrings16View",
                    _ => "DiplomatStringsView",
                },
            ),
        )
    }

    /// Puts a name of the runtime into its namespace: the target has none.
    fn diplomat_namespace(&self, ty: String) -> (r: String)
        ensures
            r@ == ty@,
    {
        ty
    }
}

} // verus!
