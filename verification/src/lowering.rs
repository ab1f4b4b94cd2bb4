//! What the lowering of a type to the ABI is: its spelling, the files it
//! makes the generated file depend on, and the diagnostics it raises.
use crate::errors::{ContextView, ErrorStore, LoweringError};
use crate::formatter::{
    decl_header_path, enum_variant_name, impl_header_path, map_ok, ok_or, optional_type_name, pointer_to,
    primitive_abi_name, primitive_slice_name, str_view_name, strs_view_name, name_of_symbol,
};
use crate::hir::{
    Callback, CallbackParam, EnumDef, EnumVariant, MaybeOwn, Method, Param, ReturnType, Slice, StructDef,
    StructField, SuccessType, SymbolId, TraitDef, TraitMethod, Type, TypeContext, TypeDef, TypeId,
};
use crate::text::{joined, lowercase_of};
use diplomat_core::hir::{Mutability, PrimitiveType};
use vstd::prelude::*;

verus! {

/// A spelling, or the reason why there is none.
pub type Spelling = Result<Seq<char>, LoweringError>;

/// How the pointer to an opaque is used: an owned value is always written
/// through, since releasing it needs mutable access; a lent one as its
/// borrow says.
pub open spec fn opaque_mutability(owner: MaybeOwn) -> Mutability {
    match owner {
        MaybeOwn::Own => Mutability::Mutable,
        MaybeOwn::Borrow(m) => m,
    }
}

/// The spelling of `ty` where a type is referred to.
///
/// An opaque is a pointer to its name; a struct, an enum and a trait are
/// their names; views and scalars have fixed names; an option is named
/// after what it wraps. A callback has no spelling of this kind.
pub open spec fn ty_name(tcx: &TypeContext, ty: Type) -> Spelling
    decreases ty,
{
    match ty {
        Type::Primitive(prim) => ok_or(
            primitive_abi_name(prim),
            LoweringError::UnsupportedPrimitive,
        ),
        Type::Opaque(op) => map_ok(
            name_of_symbol(tcx, SymbolId::TypeId(TypeId::Opaque(op.tcx_id))),
            |name: Seq<char>| pointer_to(name, opaque_mutability(op.owner)),
        ),
        Type::Struct(st) => name_of_symbol(tcx, SymbolId::TypeId(st.spec_id())),
        Type::Enum(i) => name_of_symbol(tcx, SymbolId::TypeId(TypeId::Enum(i))),
        Type::Slice(Slice::Primitive(borrow, prim)) => primitive_slice_name(borrow, prim),
        Type::Slice(Slice::Str(encoding)) => Ok(str_view_name(encoding)),
        Type::Slice(Slice::Strs(encoding)) => Ok(strs_view_name(encoding)),
        Type::DiplomatOption(inner) => match ty_name(tcx, *inner) {
            Ok(name) => optional_type_name(*inner, name),
            Err(e) => Err(e),
        },
        Type::ImplTrait(t) => name_of_symbol(tcx, SymbolId::TraitId(t)),
        Type::Callback(_) => Err(LoweringError::CallbackOutsideArgument),
    }
}

/// The definition that `ty` refers to, directly or inside options: there
/// is at most one.
pub open spec fn ty_symbol(ty: Type) -> Option<SymbolId>
    decreases ty,
{
    match ty {
        Type::Opaque(op) => Some(SymbolId::TypeId(TypeId::Opaque(op.tcx_id))),
        Type::Struct(st) => Some(SymbolId::TypeId(st.spec_id())),
        Type::Enum(i) => Some(SymbolId::TypeId(TypeId::Enum(i))),
        Type::ImplTrait(t) => Some(SymbolId::TraitId(t)),
        Type::DiplomatOption(inner) => ty_symbol(*inner),
        _ => None,
    }
}

/// The files that a reference to `ty` depends on: the declaration of the
/// definition it refers to, where the universe holds that definition.
pub open spec fn ty_includes(tcx: &TypeContext, ty: Type) -> Set<Seq<char>> {
    match ty_symbol(ty) {
        Some(id) => match tcx.symbol_name(id) {
            Some(name) => set![decl_header_path(name)],
            None => Set::empty(),
        },
        None => Set::empty(),
    }
}

/// The complaint about the use of a disabled definition.
pub open spec fn disabled_message(id: SymbolId, name: Seq<char>) -> Seq<char> {
    match id {
        SymbolId::TraitId(_) => "Found usage of disabled trait "@ + name,
        _ => "Found usage of disabled type "@ + name,
    }
}

/// The diagnostics that a reference to `ty` raises: one where the
/// definition it refers to is disabled.
pub open spec fn ty_diagnostics(tcx: &TypeContext, ty: Type) -> Seq<Seq<char>> {
    match ty_symbol(ty) {
        Some(id) => match tcx.symbol_name(id) {
            Some(name) => if tcx.symbol_disabled(id) {
                seq![disabled_message(id, name)]
            } else {
                Seq::empty()
            },
            None => Seq::empty(),
        },
        None => Seq::empty(),
    }
}

/// A reference to a definition that the universe holds, be it a struct,
/// an enum, an opaque or a trait, makes the file depend on the declaration
/// of that definition and on nothing else; in particular not on the file
/// of its methods.
pub proof fn lemma_reference_includes_declaration(
    tcx: &TypeContext,
    ty: Type,
    id: SymbolId,
    name: Seq<char>,
)
    requires
        ty_symbol(ty) == Some(id),
        tcx.symbol_name(id) == Some(name),
    ensures
        ty_includes(tcx, ty) == set![decl_header_path(name)],
        !ty_includes(tcx, ty).contains(impl_header_path(name)),
{
    crate::formatter::lemma_header_paths_differ(name);
}

/// The successes of `rs` in order, or the first failure among them.
pub open spec fn collect<T>(rs: Seq<Result<T, LoweringError>>) -> Result<Seq<T>, LoweringError>
    decreases rs.len(),
{
    if rs.len() == 0 {
        Ok(Seq::empty())
    } else {
        match collect(rs.drop_last()) {
            Err(e) => Err(e),
            Ok(done) => match rs.last() {
                Ok(x) => Ok(done.push(x)),
                Err(e) => Err(e),
            },
        }
    }
}

/// The union of all the sets.
pub open spec fn union_all(sets: Seq<Set<Seq<char>>>) -> Set<Seq<char>>
    decreases sets.len(),
{
    if sets.len() == 0 {
        Set::empty()
    } else {
        union_all(sets.drop_last()).union(sets.last())
    }
}

/// All the sequences one after the other.
pub open spec fn concat_all<T>(seqs: Seq<Seq<T>>) -> Seq<T>
    decreases seqs.len(),
{
    if seqs.len() == 0 {
        Seq::empty()
    } else {
        concat_all(seqs.drop_last()) + seqs.last()
    }
}

pub proof fn lemma_collect_step<T>(rs: Seq<Result<T, LoweringError>>, i: int)
    requires
        0 <= i < rs.len(),
    ensures
        collect(rs.take(i + 1)) == match collect(rs.take(i)) {
            Err(e) => Err::<Seq<T>, LoweringError>(e),
            Ok(done) => match rs[i] {
                Ok(x) => Ok(done.push(x)),
                Err(e) => Err(e),
            },
        },
{
    assert(rs.take(i + 1).drop_last() == rs.take(i));
    assert(rs.take(i + 1).last() == rs[i]);
}

/// Once a prefix has failed, the whole fails in the same way.
pub proof fn lemma_collect_failed<T>(rs: Seq<Result<T, LoweringError>>, i: int)
    requires
        0 <= i <= rs.len(),
        collect(rs.take(i)) is Err,
    ensures
        collect(rs) == collect(rs.take(i)),
    decreases rs.len() - i,
{
    if i == rs.len() {
        assert(rs.take(i) == rs);
    } else {
        lemma_collect_step(rs, i);
        lemma_collect_failed(rs, i + 1);
    }
}

pub proof fn lemma_union_all_step(sets: Seq<Set<Seq<char>>>, i: int)
    requires
        0 <= i < sets.len(),
    ensures
        union_all(sets.take(i + 1)) == union_all(sets.take(i)).union(sets[i]),
{
    assert(sets.take(i + 1).drop_last() == sets.take(i));
    assert(sets.take(i + 1).last() == sets[i]);
}

pub proof fn lemma_concat_all_step<T>(seqs: Seq<Seq<T>>, i: int)
    requires
        0 <= i < seqs.len(),
    ensures
        concat_all(seqs.take(i + 1)) == concat_all(seqs.take(i)) + seqs[i],
{
    assert(seqs.take(i + 1).drop_last() == seqs.take(i));
    assert(seqs.take(i + 1).last() == seqs[i]);
}

/// The spelling of what a callback hands back.
pub open spec fn callback_return(tcx: &TypeContext, output: Option<Box<Type>>) -> Spelling {
    match output {
        Some(ty) => ty_name(tcx, *ty),
        None => Ok("void"@),
    }
}

/// The spellings of the parameters of a callback or of a trait method.
pub open spec fn callback_param_names(tcx: &TypeContext, params: Seq<CallbackParam>) -> Seq<
    Spelling,
> {
    params.map_values(|p: CallbackParam| ty_name(tcx, p.ty))
}

/// The parameter list of the function pointer that stands for a callback
/// or a trait method: a pointer to the caller's context first, then the
/// parameters.
pub open spec fn callback_params_types(tcx: &TypeContext, params: Seq<CallbackParam>) -> Spelling {
    match collect(callback_param_names(tcx, params)) {
        Ok(names) => Ok(joined(seq!["void*"@] + names, ", "@)),
        Err(e) => Err(e),
    }
}

/// The files that the parameters of a callback depend on.
pub open spec fn callback_params_includes(tcx: &TypeContext, params: Seq<CallbackParam>) -> Set<
    Seq<char>,
> {
    union_all(params.map_values(|p: CallbackParam| ty_includes(tcx, p.ty)))
}

/// The diagnostics that the parameters of a callback raise.
pub open spec fn callback_params_diagnostics(
    tcx: &TypeContext,
    params: Seq<CallbackParam>,
) -> Seq<Seq<char>> {
    concat_all(params.map_values(|p: CallbackParam| ty_diagnostics(tcx, p.ty)))
}

/// The name, parameter list and return spelling of a callback wrapper.
pub type WrapperView = (Seq<char>, Seq<char>, Seq<char>);

/// The wrapper called `name` for the callback `cb`. Its return type is
/// lowered before its parameters.
pub open spec fn callback_wrapper(tcx: &TypeContext, name: Seq<char>, cb: Callback) -> Result<
    WrapperView,
    LoweringError,
> {
    match callback_return(tcx, cb.output) {
        Err(e) => Err(e),
        Ok(ret) => match callback_params_types(tcx, cb.params@) {
            Err(e) => Err(e),
            Ok(params) => Ok((name, params, ret)),
        },
    }
}

/// The files that the signature of a callback depends on.
pub open spec fn callback_includes(tcx: &TypeContext, cb: Callback) -> Set<Seq<char>> {
    (match cb.output {
        Some(ty) => ty_includes(tcx, *ty),
        None => Set::empty(),
    }).union(callback_params_includes(tcx, cb.params@))
}

/// The diagnostics that the signature of a callback raises.
pub open spec fn callback_diagnostics(tcx: &TypeContext, cb: Callback) -> Seq<Seq<char>> {
    (match cb.output {
        Some(ty) => ty_diagnostics(tcx, *ty),
        None => Seq::empty(),
    }) + callback_params_diagnostics(tcx, cb.params@)
}

/// The name of the wrapper for the callback parameter `ident` of the
/// method with the ABI name `method_abi_name`.
pub open spec fn callback_wrapper_name(method_abi_name: Seq<char>, ident: Seq<char>) -> Seq<char> {
    "DiplomatCallback_"@ + method_abi_name + "_"@ + ident
}

/// Callback parameters of the same name in two methods get different
/// wrappers, as far as the methods differ in their names on the ABI.
pub proof fn lemma_callback_wrapper_names_differ(abi1: Seq<char>, abi2: Seq<char>, ident: Seq<char>)
    requires
        abi1 != abi2,
    ensures
        callback_wrapper_name(abi1, ident) != callback_wrapper_name(abi2, ident),
{
    let prefix = "DiplomatCallback_"@;
    let w1 = callback_wrapper_name(abi1, ident);
    let w2 = callback_wrapper_name(abi2, ident);
    if w1 == w2 {
        assert(w1.len() == prefix.len() + abi1.len() + "_"@.len() + ident.len());
        assert(w2.len() == prefix.len() + abi2.len() + "_"@.len() + ident.len());
        assert forall|k: int| 0 <= k < abi1.len() implies abi1[k] == abi2[k] by {
            assert(w1[prefix.len() + k] == abi1[k]);
            assert(w2[prefix.len() + k] == abi2[k]);
        }
        assert(abi1 =~= abi2);
    }
}

/// A declared type and the name it is bound to.
pub type DeclView = (Seq<char>, Seq<char>);

/// The declaration of the parameter or field `ident` of type `ty`.
///
/// A callback becomes a wrapper named after the method and the parameter,
/// a trait object the struct of function pointers of its trait; the local
/// name of either gets a suffix. Anything else is declared under its
/// spelling and its own name. A callback outside a method has no
/// declaration.
pub open spec fn ty_decl(
    tcx: &TypeContext,
    ty: Type,
    ident: Seq<char>,
    method_abi_name: Option<Seq<char>>,
) -> Result<DeclView, LoweringError> {
    match ty {
        Type::Callback(cb) => match method_abi_name {
            None => Err(LoweringError::CallbackOutsideArgument),
            Some(abi) => match callback_wrapper(tcx, callback_wrapper_name(abi, ident), cb) {
                Ok(_) => Ok((callback_wrapper_name(abi, ident), ident + "_cb_wrap"@)),
                Err(e) => Err(e),
            },
        },
        Type::ImplTrait(_) => match ty_name(tcx, ty) {
            Ok(name) => Ok(("DiplomatTraitStruct_"@ + name, ident + "_trait_wrap"@)),
            Err(e) => Err(e),
        },
        _ => match ty_name(tcx, ty) {
            Ok(name) => Ok((name, ident)),
            Err(e) => Err(e),
        },
    }
}

/// The callback wrappers that declaring `ident` of type `ty` brings with it.
pub open spec fn ty_decl_wrappers(
    tcx: &TypeContext,
    ty: Type,
    ident: Seq<char>,
    method_abi_name: Option<Seq<char>>,
) -> Seq<WrapperView> {
    match (ty, method_abi_name) {
        (Type::Callback(cb), Some(abi)) => match callback_wrapper(
            tcx,
            callback_wrapper_name(abi, ident),
            cb,
        ) {
            Ok(w) => seq![w],
            Err(_) => Seq::empty(),
        },
        _ => Seq::empty(),
    }
}

/// The files that a parameter or field of type `ty` depends on.
pub open spec fn ty_decl_includes(tcx: &TypeContext, ty: Type) -> Set<Seq<char>> {
    match ty {
        Type::Callback(cb) => callback_includes(tcx, cb),
        _ => ty_includes(tcx, ty),
    }
}

/// The diagnostics that a parameter or field of type `ty` raises. The use
/// of a disabled trait as a trait object is reported twice.
pub open spec fn ty_decl_diagnostics(tcx: &TypeContext, ty: Type) -> Seq<Seq<char>> {
    match ty {
        Type::Callback(cb) => callback_diagnostics(tcx, cb),
        Type::ImplTrait(_) => ty_diagnostics(tcx, ty) + ty_diagnostics(tcx, ty),
        _ => ty_diagnostics(tcx, ty),
    }
}

/// Whether `ty` is a struct without fields, which takes no room on the
/// ABI.
pub open spec fn is_empty_struct(tcx: &TypeContext, ty: Type) -> bool {
    match ty {
        Type::Struct(st) => match tcx.type_def(st.spec_id()) {
            Some(TypeDef::Struct(d)) => d.fields@.len() == 0,
            Some(TypeDef::OutStruct(d)) => d.fields@.len() == 0,
            _ => false,
        },
        _ => false,
    }
}

/// What is left of an optional payload on the ABI: a struct without fields
/// counts as no payload.
pub open spec fn payload(tcx: &TypeContext, ty: Option<Type>) -> Option<Type> {
    match ty {
        Some(t) => if is_empty_struct(tcx, t) {
            None
        } else {
            Some(t)
        },
        None => None,
    }
}

/// The tag of a success spelling inside the name of a result type; none
/// for a spelling that no result type exists for.
pub open spec fn result_tag(spelling: Seq<char>) -> Option<Seq<char>> {
    if spelling == "c_int8_t"@ || spelling == "c_int8"@ {
        Some("I8"@)
    } else if spelling == "c_uint8_t"@ || spelling == "c_uint8"@ {
        Some("U8"@)
    } else if spelling == "c_int16_t"@ || spelling == "c_int16"@ {
        Some("I16"@)
    } else if spelling == "c_uint16_t"@ || spelling == "c_uint16"@ {
        Some("U16"@)
    } else if spelling == "c_int32_t"@ || spelling == "c_int32"@ {
        Some("I32"@)
    } else if spelling == "c_uint32_t"@ || spelling == "c_uint32"@ {
        Some("U32"@)
    } else if spelling == "c_int64_t"@ || spelling == "c_int64"@ {
        Some("I64"@)
    } else if spelling == "c_uint64_t"@ || spelling == "c_uint64"@ {
        Some("U64"@)
    } else if spelling == "intptr_t"@ || spelling == "c_intptr"@ {
        Some("Isize"@)
    } else if spelling == "c_size_t"@ || spelling == "c_size"@ {
        Some("Usize"@)
    } else if spelling == "c_float"@ {
        Some("F32"@)
    } else if spelling == "c_double"@ {
        Some("F64"@)
    } else if spelling == "c_bool"@ {
        Some("Bool"@)
    } else if spelling == "c_char32_t"@ || spelling == "c_char32"@ {
        Some("Char"@)
    } else if spelling == "c_char"@ {
        Some("String"@)
    } else if spelling == "c_char16_t"@ || spelling == "c_char16"@ {
        Some("String16"@)
    } else if spelling == "DiplomatStringView"@ {
        Some("Strings"@)
    } else if spelling == "DiplomatString16View"@ {
        Some("Strings16"@)
    } else {
        None
    }
}

/// The spellings that the table of result tags knows, character by
/// character.
proof fn lemma_result_spellings()
    ensures
        "c_int8_t"@.len() == 8
            && "c_int8_t"@[0] == 'c'
            && "c_int8_t"@[1] == '_'
            && "c_int8_t"@[2] == 'i'
            && "c_int8_t"@[3] == 'n'
            && "c_int8_t"@[4] == 't'
            && "c_int8_t"@[5] == '8'
            && "c_int8_t"@[6] == '_'
            && "c_int8_t"@[7] == 't',
        "c_int8"@.len() == 6
            && "c_int8"@[0] == 'c'
            && "c_int8"@[1] == '_'
            && "c_int8"@[2] == 'i'
            && "c_int8"@[3] == 'n'
            && "c_int8"@[4] == 't'
            && "c_int8"@[5] == '8',
        "c_uint8_t"@.len() == 9
            && "c_uint8_t"@[0] == 'c'
            && "c_uint8_t"@[1] == '_'
            && "c_uint8_t"@[2] == 'u'
            && "c_uint8_t"@[3] == 'i'
            && "c_uint8_t"@[4] == 'n'
            && "c_uint8_t"@[5] == 't'
            && "c_uint8_t"@[6] == '8'
            && "c_uint8_t"@[7] == '_'
            && "c_uint8_t"@[8] == 't',
        "c_uint8"@.len() == 7
            && "c_uint8"@[0] == 'c'
            && "c_uint8"@[1] == '_'
            && "c_uint8"@[2] == 'u'
            && "c_uint8"@[3] == 'i'
            && "c_uint8"@[4] == 'n'
            && "c_uint8"@[5] == 't'
            && "c_uint8"@[6] == '8',
        "c_int16_t"@.len() == 9
            && "c_int16_t"@[0] == 'c'
            && "c_int16_t"@[1] == '_'
            && "c_int16_t"@[2] == 'i'
            && "c_int16_t"@[3] == 'n'
            && "c_int16_t"@[4] == 't'
            && "c_int16_t"@[5] == '1'
            && "c_int16_t"@[6] == '6'
            && "c_int16_t"@[7] == '_'
            && "c_int16_t"@[8] == 't',
        "c_int16"@.len() == 7
            && "c_int16"@[0] == 'c'
            && "c_int16"@[1] == '_'
            && "c_int16"@[2] == 'i'
            && "c_int16"@[3] == 'n'
            && "c_int16"@[4] == 't'
            && "c_int16"@[5] == '1'
            && "c_int16"@[6] == '6',
        "c_uint16_t"@.len() == 10
            && "c_uint16_t"@[0] == 'c'
            && "c_uint16_t"@[1] == '_'
            && "c_uint16_t"@[2] == 'u'
            && "c_uint16_t"@[3] == 'i'
            && "c_uint16_t"@[4] == 'n'
            && "c_uint16_t"@[5] == 't'
            && "c_uint16_t"@[6] == '1'
            && "c_uint16_t"@[7] == '6'
            && "c_uint16_t"@[8] == '_'
            && "c_uint16_t"@[9] == 't',
        "c_uint16"@.len() == 8
            && "c_uint16"@[0] == 'c'
            && "c_uint16"@[1] == '_'
            && "c_uint16"@[2] == 'u'
            && "c_uint16"@[3] == 'i'
            && "c_uint16"@[4] == 'n'
            && "c_uint16"@[5] == 't'
            && "c_uint16"@[6] == '1'
            && "c_uint16"@[7] == '6',
        "c_int32_t"@.len() == 9
            && "c_int32_t"@[0] == 'c'
            && "c_int32_t"@[1] == '_'
            && "c_int32_t"@[2] == 'i'
            && "c_int32_t"@[3] == 'n'
            && "c_int32_t"@[4] == 't'
            && "c_int32_t"@[5] == '3'
            && "c_int32_t"@[6] == '2'
            && "c_int32_t"@[7] == '_'
            && "c_int32_t"@[8] == 't',
        "c_int32"@.len() == 7
            && "c_int32"@[0] == 'c'
            && "c_int32"@[1] == '_'
            && "c_int32"@[2] == 'i'
            && "c_int32"@[3] == 'n'
            && "c_int32"@[4] == 't'
            && "c_int32"@[5] == '3'
            && "c_int32"@[6] == '2',
        "c_uint32_t"@.len() == 10
            && "c_uint32_t"@[0] == 'c'
            && "c_uint32_t"@[1] == '_'
            && "c_uint32_t"@[2] == 'u'
            && "c_uint32_t"@[3] == 'i'
            && "c_uint32_t"@[4] == 'n'
            && "c_uint32_t"@[5] == 't'
            && "c_uint32_t"@[6] == '3'
            && "c_uint32_t"@[7] == '2'
            && "c_uint32_t"@[8] == '_'
            && "c_uint32_t"@[9] == 't',
        "c_uint32"@.len() == 8
            && "c_uint32"@[0] == 'c'
            && "c_uint32"@[1] == '_'
            && "c_uint32"@[2] == 'u'
            && "c_uint32"@[3] == 'i'
            && "c_uint32"@[4] == 'n'
            && "c_uint32"@[5] == 't'
            && "c_uint32"@[6] == '3'
            && "c_uint32"@[7] == '2',
        "c_int64_t"@.len() == 9
            && "c_int64_t"@[0] == 'c'
            && "c_int64_t"@[1] == '_'
            && "c_int64_t"@[2] == 'i'
            && "c_int64_t"@[3] == 'n'
            && "c_int64_t"@[4] == 't'
            && "c_int64_t"@[5] == '6'
            && "c_int64_t"@[6] == '4'
            && "c_int64_t"@[7] == '_'
            && "c_int64_t"@[8] == 't',
        "c_int64"@.len() == 7
            && "c_int64"@[0] == 'c'
            && "c_int64"@[1] == '_'
            && "c_int64"@[2] == 'i'
            && "c_int64"@[3] == 'n'
            && "c_int64"@[4] == 't'
            && "c_int64"@[5] == '6'
            && "c_int64"@[6] == '4',
        "c_uint64_t"@.len() == 10
            && "c_uint64_t"@[0] == 'c'
            && "c_uint64_t"@[1] == '_'
            && "c_uint64_t"@[2] == 'u'
            && "c_uint64_t"@[3] == 'i'
            && "c_uint64_t"@[4] == 'n'
            && "c_uint64_t"@[5] == 't'
            && "c_uint64_t"@[6] == '6'
            && "c_uint64_t"@[7] == '4'
            && "c_uint64_t"@[8] == '_'
            && "c_uint64_t"@[9] == 't',
        "c_uint64"@.len() == 8
            && "c_uint64"@[0] == 'c'
            && "c_uint64"@[1] == '_'
            && "c_uint64"@[2] == 'u'
            && "c_uint64"@[3] == 'i'
            && "c_uint64"@[4] == 'n'
            && "c_uint64"@[5] == 't'
            && "c_uint64"@[6] == '6'
            && "c_uint64"@[7] == '4',
        "intptr_t"@.len() == 8
            && "intptr_t"@[0] == 'i'
            && "intptr_t"@[1] == 'n'
            && "intptr_t"@[2] == 't'
            && "intptr_t"@[3] == 'p'
            && "intptr_t"@[4] == 't'
            && "intptr_t"@[5] == 'r'
            && "intptr_t"@[6] == '_'
            && "intptr_t"@[7] == 't',
        "c_intptr"@.len() == 8
            && "c_intptr"@[0] == 'c'
            && "c_intptr"@[1] == '_'
            && "c_intptr"@[2] == 'i'
            && "c_intptr"@[3] == 'n'
            && "c_intptr"@[4] == 't'
            && "c_intptr"@[5] == 'p'
            && "c_intptr"@[6] == 't'
            && "c_intptr"@[7] == 'r',
        "c_size_t"@.len() == 8
            && "c_size_t"@[0] == 'c'
            && "c_size_t"@[1] == '_'
            && "c_size_t"@[2] == 's'
            && "c_size_t"@[3] == 'i'
            && "c_size_t"@[4] == 'z'
            && "c_size_t"@[5] == 'e'
            && "c_size_t"@[6] == '_'
            && "c_size_t"@[7] == 't',
        "c_size"@.len() == 6
            && "c_size"@[0] == 'c'
            && "c_size"@[1] == '_'
            && "c_size"@[2] == 's'
            && "c_size"@[3] == 'i'
            && "c_size"@[4] == 'z'
            && "c_size"@[5] == 'e',
        "c_float"@.len() == 7
            && "c_float"@[0] == 'c'
            && "c_float"@[1] == '_'
            && "c_float"@[2] == 'f'
            && "c_float"@[3] == 'l'
            && "c_float"@[4] == 'o'
            && "c_float"@[5] == 'a'
            && "c_float"@[6] == 't',
        "c_double"@.len() == 8
            && "c_double"@[0] == 'c'
            && "c_double"@[1] == '_'
            && "c_double"@[2] == 'd'
            && "c_double"@[3] == 'o'
            && "c_double"@[4] == 'u'
            && "c_double"@[5] == 'b'
            && "c_double"@[6] == 'l'
            && "c_double"@[7] == 'e',
        "c_bool"@.len() == 6
            && "c_bool"@[0] == 'c'
            && "c_bool"@[1] == '_'
            && "c_bool"@[2] == 'b'
            && "c_bool"@[3] == 'o'
            && "c_bool"@[4] == 'o'
            && "c_bool"@[5] == 'l',
        "c_char32_t"@.len() == 10
            && "c_char32_t"@[0] == 'c'
            && "c_char32_t"@[1] == '_'
            && "c_char32_t"@[2] == 'c'
            && "c_char32_t"@[3] == 'h'
            && "c_char32_t"@[4] == 'a'
            && "c_char32_t"@[5] == 'r'
            && "c_char32_t"@[6] == '3'
            && "c_char32_t"@[7] == '2'
            && "c_char32_t"@[8] == '_'
            && "c_char32_t"@[9] == 't',
        "c_char32"@.len() == 8
            && "c_char32"@[0] == 'c'
            && "c_char32"@[1] == '_'
            && "c_char32"@[2] == 'c'
            && "c_char32"@[3] == 'h'
            && "c_char32"@[4] == 'a'
            && "c_char32"@[5] == 'r'
            && "c_char32"@[6] == '3'
            && "c_char32"@[7] == '2',
        "c_char"@.len() == 6
            && "c_char"@[0] == 'c'
            && "c_char"@[1] == '_'
            && "c_char"@[2] == 'c'
            && "c_char"@[3] == 'h'
            && "c_char"@[4] == 'a'
            && "c_char"@[5] == 'r',
        "c_char16_t"@.len() == 10
            && "c_char16_t"@[0] == 'c'
            && "c_char16_t"@[1] == '_'
            && "c_char16_t"@[2] == 'c'
            && "c_char16_t"@[3] == 'h'
            && "c_char16_t"@[4] == 'a'
            && "c_char16_t"@[5] == 'r'
            && "c_char16_t"@[6] == '1'
            && "c_char16_t"@[7] == '6'
            && "c_char16_t"@[8] == '_'
            && "c_char16_t"@[9] == 't',
        "c_char16"@.len() == 8
            && "c_char16"@[0] == 'c'
            && "c_char16"@[1] == '_'
            && "c_char16"@[2] == 'c'
            && "c_char16"@[3] == 'h'
            && "c_char16"@[4] == 'a'
            && "c_char16"@[5] == 'r'
            && "c_char16"@[6] == '1'
            && "c_char16"@[7] == '6',
        "DiplomatStringView"@.len() == 18
            && "DiplomatStringView"@[0] == 'D'
            && "DiplomatStringView"@[1] == 'i'
            && "DiplomatStringView"@[2] == 'p'
            && "DiplomatStringView"@[3] == 'l'
            && "DiplomatStringView"@[4] == 'o'
            && "DiplomatStringView"@[5] == 'm'
            && "DiplomatStringView"@[6] == 'a'
            && "DiplomatStringView"@[7] == 't'
            && "DiplomatStringView"@[8] == 'S'
            && "DiplomatStringView"@[9] == 't'
            && "DiplomatStringView"@[10] == 'r'
            && "DiplomatStringView"@[11] == 'i'
            && "DiplomatStringView"@[12] == 'n'
            && "DiplomatStringView"@[13] == 'g'
            && "DiplomatStringView"@[14] == 'V'
            && "DiplomatStringView"@[15] == 'i'
            && "DiplomatStringView"@[16] == 'e'
            && "DiplomatStringView"@[17] == 'w',
        "DiplomatString16View"@.len() == 20
            && "DiplomatString16View"@[0] == 'D'
            && "DiplomatString16View"@[1] == 'i'
            && "DiplomatString16View"@[2] == 'p'
            && "DiplomatString16View"@[3] == 'l'
            && "DiplomatString16View"@[4] == 'o'
            && "DiplomatString16View"@[5] == 'm'
            && "DiplomatString16View"@[6] == 'a'
            && "DiplomatString16View"@[7] == 't'
            && "DiplomatString16View"@[8] == 'S'
            && "DiplomatString16View"@[9] == 't'
            && "DiplomatString16View"@[10] == 'r'
            && "DiplomatString16View"@[11] == 'i'
            && "DiplomatString16View"@[12] == 'n'
            && "DiplomatString16View"@[13] == 'g'
            && "DiplomatString16View"@[14] == '1'
            && "DiplomatString16View"@[15] == '6'
            && "DiplomatString16View"@[16] == 'V'
            && "DiplomatString16View"@[17] == 'i'
            && "DiplomatString16View"@[18] == 'e'
            && "DiplomatString16View"@[19] == 'w',
{
    reveal_strlit("c_int8_t");
    reveal_strlit("c_int8");
    reveal_strlit("c_uint8_t");
    reveal_strlit("c_uint8");
    reveal_strlit("c_int16_t");
    reveal_strlit("c_int16");
    reveal_strlit("c_uint16_t");
    reveal_strlit("c_uint16");
    reveal_strlit("c_int32_t");
    reveal_strlit("c_int32");
    reveal_strlit("c_uint32_t");
    reveal_strlit("c_uint32");
    reveal_strlit("c_int64_t");
    reveal_strlit("c_int64");
    reveal_strlit("c_uint64_t");
    reveal_strlit("c_uint64");
    reveal_strlit("intptr_t");
    reveal_strlit("c_intptr");
    reveal_strlit("c_size_t");
    reveal_strlit("c_size");
    reveal_strlit("c_float");
    reveal_strlit("c_double");
    reveal_strlit("c_bool");
    reveal_strlit("c_char32_t");
    reveal_strlit("c_char32");
    reveal_strlit("c_char");
    reveal_strlit("c_char16_t");
    reveal_strlit("c_char16");
    reveal_strlit("DiplomatStringView");
    reveal_strlit("DiplomatString16View");
}

/// The table of spellings knows every scalar that has a spelling, and
/// gives it the tag that the scalar has in the names of options and views.
pub proof fn lemma_result_tag_of_primitive(prim: PrimitiveType)
    requires
        !(prim is Int128),
    ensures
        primitive_abi_name(prim) is Some,
        result_tag(primitive_abi_name(prim)->0) == crate::formatter::primitive_tag(prim),
{
    lemma_result_spellings();
}

/// A result without a success payload has no name: the table of spellings
/// does not know the empty spelling.
pub proof fn lemma_result_without_payload_has_no_name(tcx: &TypeContext, err: Option<Type>)
    ensures
        result_ty_name(tcx, None, err) == Err::<Seq<char>, LoweringError>(
            LoweringError::UnknownResultSpelling,
        ),
{
    lemma_result_spellings();
    assert(Seq::<char>::empty().len() == 0);
    assert(ok_spelling(tcx, None) == Ok::<Seq<char>, LoweringError>(Seq::empty()));
}

/// The spelling of the success payload of a result: empty without one.
pub open spec fn ok_spelling(tcx: &TypeContext, ok: Option<Type>) -> Spelling {
    match payload(tcx, ok) {
        Some(t) => ty_name(tcx, t),
        None => Ok(Seq::empty()),
    }
}

/// The name of the type that carries a fallible or nullable result with
/// the success payload `ok` and the failure payload `err`. The name is
/// shared by all results with the same kind of success payload; the
/// failure payload has no part in it.
pub open spec fn result_ty_name(tcx: &TypeContext, ok: Option<Type>, err: Option<Type>) -> Spelling {
    match ok_spelling(tcx, ok) {
        Err(e) => Err(e),
        Ok(spelling) => match result_tag(spelling) {
            Some(tag) => Ok("Option"@ + tag + "Result"@),
            None => Err(LoweringError::UnknownResultSpelling),
        },
    }
}

/// The files that a result with the success payload `ok` depends on.
pub open spec fn result_ty_includes(tcx: &TypeContext, ok: Option<Type>) -> Set<Seq<char>> {
    match payload(tcx, ok) {
        Some(t) => ty_includes(tcx, t),
        None => Set::empty(),
    }
}

/// The diagnostics that a result with the success payload `ok` raises.
pub open spec fn result_ty_diagnostics(tcx: &TypeContext, ok: Option<Type>) -> Seq<Seq<char>> {
    match payload(tcx, ok) {
        Some(t) => ty_diagnostics(tcx, t),
        None => Seq::empty(),
    }
}

/// A struct without fields as the payload of a result counts as no
/// payload, on either side: the name of the result type, the includes and
/// the diagnostics are those of the result without that payload.
pub proof fn lemma_empty_struct_is_no_payload(tcx: &TypeContext, empty: Type, other: Option<Type>)
    requires
        is_empty_struct(tcx, empty),
    ensures
        result_ty_name(tcx, Some(empty), other) == result_ty_name(tcx, None, other),
        result_ty_includes(tcx, Some(empty)) == result_ty_includes(tcx, None),
        result_ty_diagnostics(tcx, Some(empty)) == result_ty_diagnostics(tcx, None),
        result_ty_name(tcx, other, Some(empty)) == result_ty_name(tcx, other, None),
{
}

/// The type that a method hands back on success, if it is one.
pub open spec fn success_payload(s: SuccessType) -> Option<Type> {
    match s {
        SuccessType::OutType(t) => Some(t),
        _ => None,
    }
}

/// The spelling of what a method returns on the ABI. Nothing is returned
/// where there is no value or where it is written to a sink; a fallible
/// and a nullable value both become a result type.
pub open spec fn method_return(tcx: &TypeContext, output: ReturnType) -> Spelling {
    match output {
        ReturnType::Infallible(SuccessType::OutType(o)) => ty_name(tcx, o),
        ReturnType::Infallible(_) => Ok("None"@),
        ReturnType::Fallible(ok, err) => result_ty_name(tcx, success_payload(ok), err),
        ReturnType::Nullable(ok) => result_ty_name(tcx, success_payload(ok), None),
    }
}

/// The files that the return type of a method depends on.
pub open spec fn return_includes(tcx: &TypeContext, output: ReturnType) -> Set<Seq<char>> {
    match output {
        ReturnType::Infallible(SuccessType::OutType(o)) => ty_includes(tcx, o),
        ReturnType::Infallible(_) => Set::empty(),
        ReturnType::Fallible(ok, _) => result_ty_includes(tcx, success_payload(ok)),
        ReturnType::Nullable(ok) => result_ty_includes(tcx, success_payload(ok)),
    }
}

/// The diagnostics that the return type of a method raises.
pub open spec fn return_diagnostics(tcx: &TypeContext, output: ReturnType) -> Seq<Seq<char>> {
    match output {
        ReturnType::Infallible(SuccessType::OutType(o)) => ty_diagnostics(tcx, o),
        ReturnType::Infallible(_) => Seq::empty(),
        ReturnType::Fallible(ok, _) => result_ty_diagnostics(tcx, success_payload(ok)),
        ReturnType::Nullable(ok) => result_ty_diagnostics(tcx, success_payload(ok)),
    }
}

/// The parameter that is added for a method that writes its text to a
/// sink: none for any other method.
pub open spec fn write_sink(output: ReturnType) -> Seq<DeclView> {
    match output {
        ReturnType::Infallible(SuccessType::Write) => seq![
            (pointer_to("DiplomatWrite"@, Mutability::Mutable), "write"@),
        ],
        ReturnType::Fallible(SuccessType::Write, _) => seq![("DiplomatWrite"@ + "*"@, "write"@)],
        ReturnType::Nullable(SuccessType::Write) => seq![("DiplomatWrite"@ + "*"@, "write"@)],
        _ => Seq::empty(),
    }
}

/// The declaration of the receiver of a method, if it has one.
pub open spec fn receiver_decl(tcx: &TypeContext, m: Method) -> Result<Seq<DeclView>, LoweringError> {
    match m.param_self {
        Some(s) => match ty_decl(tcx, s.spec_to_type(), "self"@, Some(m.abi_name@)) {
            Ok(d) => Ok(seq![d]),
            Err(e) => Err(e),
        },
        None => Ok(Seq::empty()),
    }
}

/// The declarations of the declared parameters of a method.
pub open spec fn param_decl_results(tcx: &TypeContext, m: Method) -> Seq<Result<DeclView, LoweringError>> {
    m.params@.map_values(|p: Param| ty_decl(tcx, p.ty, p.name@, Some(m.abi_name@)))
}

/// The declarations of the inputs of a method: the receiver first, then
/// the parameters in declared order.
pub open spec fn method_decls(tcx: &TypeContext, m: Method) -> Result<Seq<DeclView>, LoweringError> {
    match receiver_decl(tcx, m) {
        Err(e) => Err(e),
        Ok(receiver) => match collect(param_decl_results(tcx, m)) {
            Err(e) => Err(e),
            Ok(params) => Ok(receiver + params),
        },
    }
}

/// The parameter list with types: `name: type`, separated by commas.
pub open spec fn typed_params(decls: Seq<DeclView>) -> Seq<char> {
    joined(decls.map_values(|d: DeclView| d.1 + ": "@ + d.0), ", "@)
}

/// The parameter list without types: the names, separated by commas.
pub open spec fn bare_params(decls: Seq<DeclView>) -> Seq<char> {
    joined(decls.map_values(|d: DeclView| d.1), ", "@)
}

/// The parts of a method that the generated file is written from.
pub struct MethodView {
    pub return_ty: Seq<char>,
    pub params: Seq<char>,
    pub param_names: Seq<char>,
    pub abi_name: Seq<char>,
    pub method_name: Seq<char>,
}

/// The lowering of a method: its inputs are declared first, in order, then
/// its return type is spelled.
pub open spec fn method_template(tcx: &TypeContext, m: Method) -> Result<MethodView, LoweringError> {
    match method_decls(tcx, m) {
        Err(e) => Err(e),
        Ok(decls) => match method_return(tcx, m.output) {
            Err(e) => Err(e),
            Ok(ret) => Ok(
                MethodView {
                    return_ty: ret,
                    params: typed_params(decls + write_sink(m.output)),
                    param_names: bare_params(decls + write_sink(m.output)),
                    abi_name: m.abi_name@,
                    method_name: lowercase_of(m.abi_name@),
                },
            ),
        },
    }
}

/// The callback wrappers of a method, one for each callback parameter, in
/// declared order.
pub open spec fn method_wrappers(tcx: &TypeContext, m: Method) -> Seq<WrapperView> {
    concat_all(
        m.params@.map_values(|p: Param| ty_decl_wrappers(tcx, p.ty, p.name@, Some(m.abi_name@))),
    )
}

/// The files that the signature of a method depends on.
pub open spec fn method_includes(tcx: &TypeContext, m: Method) -> Set<Seq<char>> {
    (match m.param_self {
        Some(s) => ty_decl_includes(tcx, s.spec_to_type()),
        None => Set::empty(),
    }).union(union_all(m.params@.map_values(|p: Param| ty_decl_includes(tcx, p.ty)))).union(
        return_includes(tcx, m.output),
    )
}

/// The diagnostics that the signature of a method raises: those of the
/// receiver, of the parameters in order, and of the return type.
pub open spec fn method_diagnostics(tcx: &TypeContext, m: Method) -> Seq<Seq<char>> {
    (match m.param_self {
        Some(s) => ty_decl_diagnostics(tcx, s.spec_to_type()),
        None => Seq::empty(),
    }) + concat_all(m.params@.map_values(|p: Param| ty_decl_diagnostics(tcx, p.ty)))
        + return_diagnostics(tcx, m.output)
}

/// Once a first part has failed, the whole fails in the same way, whatever
/// follows.
pub proof fn lemma_collect_prefix_failed<T>(
    a: Seq<Result<T, LoweringError>>,
    b: Seq<Result<T, LoweringError>>,
)
    requires
        collect(a) is Err,
    ensures
        collect(a + b) == collect(a),
    decreases b.len(),
{
    if b.len() == 0 {
        assert(a + b == a);
    } else {
        lemma_collect_prefix_failed(a, b.drop_last());
        assert((a + b).drop_last() == a + b.drop_last());
    }
}

/// The name of the definition being generated, which has to be a type.
pub open spec fn own_type_name(tcx: &TypeContext, id: SymbolId) -> Spelling {
    match id {
        SymbolId::TypeId(_) => name_of_symbol(tcx, id),
        _ => Err(LoweringError::SymbolKindMismatch),
    }
}

/// The name of the definition being generated, which has to be a trait.
pub open spec fn own_trait_name(tcx: &TypeContext, id: SymbolId) -> Spelling {
    match id {
        SymbolId::TraitId(_) => name_of_symbol(tcx, id),
        _ => Err(LoweringError::SymbolKindMismatch),
    }
}

/// The flat names of the variants of an enum called `name`, in declared
/// order.
pub open spec fn enum_variants(name: Seq<char>, def: EnumDef) -> Seq<Seq<char>> {
    def.variants@.map_values(|v: EnumVariant| enum_variant_name(name, v.name@))
}

/// The declarations of the fields of a struct, in declared order.
pub open spec fn struct_fields(tcx: &TypeContext, def: StructDef) -> Result<
    Seq<DeclView>,
    LoweringError,
> {
    collect(def.fields@.map_values(|f: StructField| ty_decl(tcx, f.ty, f.name@, None)))
}

/// The files that the fields of a struct depend on.
pub open spec fn struct_includes(tcx: &TypeContext, def: StructDef) -> Set<Seq<char>> {
    union_all(def.fields@.map_values(|f: StructField| ty_decl_includes(tcx, f.ty)))
}

/// The diagnostics that the fields of a struct raise.
pub open spec fn struct_diagnostics(tcx: &TypeContext, def: StructDef) -> Seq<Seq<char>> {
    concat_all(def.fields@.map_values(|f: StructField| ty_decl_diagnostics(tcx, f.ty)))
}

/// The spelling of what a trait method hands back.
pub open spec fn trait_method_return(tcx: &TypeContext, output: Option<Type>) -> Spelling {
    match output {
        Some(ty) => ty_name(tcx, ty),
        None => Ok("void"@),
    }
}

/// The function pointer that stands for a trait method in the struct of
/// its trait. Its parameters are lowered before its return type.
pub open spec fn trait_method_sig(tcx: &TypeContext, m: TraitMethod) -> Spelling {
    match callback_params_types(tcx, m.params@) {
        Err(e) => Err(e),
        Ok(params) => match trait_method_return(tcx, m.output) {
            Err(e) => Err(e),
            Ok(ret) => Ok(ret + " (*run_"@ + m.name@ + "_callback)("@ + params + ");"@),
        },
    }
}

/// The files that what a trait method hands back depends on.
pub open spec fn output_includes(tcx: &TypeContext, output: Option<Type>) -> Set<Seq<char>> {
    match output {
        Some(ty) => ty_includes(tcx, ty),
        None => Set::empty(),
    }
}

/// The diagnostics that what a trait method hands back raises.
pub open spec fn output_diagnostics(tcx: &TypeContext, output: Option<Type>) -> Seq<Seq<char>> {
    match output {
        Some(ty) => ty_diagnostics(tcx, ty),
        None => Seq::empty(),
    }
}

/// The files that the signature of a trait method depends on.
pub open spec fn trait_method_includes(tcx: &TypeContext, m: TraitMethod) -> Set<Seq<char>> {
    callback_params_includes(tcx, m.params@).union(output_includes(tcx, m.output))
}

/// The diagnostics that the signature of a trait method raises.
pub open spec fn trait_method_diagnostics(tcx: &TypeContext, m: TraitMethod) -> Seq<Seq<char>> {
    callback_params_diagnostics(tcx, m.params@) + output_diagnostics(tcx, m.output)
}

/// The function pointers of a trait, one for each method, in declared
/// order.
pub open spec fn trait_sigs(tcx: &TypeContext, def: TraitDef) -> Result<
    Seq<Seq<char>>,
    LoweringError,
> {
    collect(def.methods@.map_values(|m: TraitMethod| trait_method_sig(tcx, m)))
}

/// The files that the methods of a trait depend on.
pub open spec fn trait_includes(tcx: &TypeContext, def: TraitDef) -> Set<Seq<char>> {
    union_all(def.methods@.map_values(|m: TraitMethod| trait_method_includes(tcx, m)))
}

/// The diagnostics that the methods of a trait raise.
pub open spec fn trait_diagnostics(tcx: &TypeContext, def: TraitDef) -> Seq<Seq<char>> {
    concat_all(def.methods@.map_values(|m: TraitMethod| trait_method_diagnostics(tcx, m)))
}

/// The methods that code is generated for: those that are not disabled, in
/// declared order.
pub open spec fn retained(methods: Seq<Method>) -> Seq<Method> {
    methods.filter(|m: Method| !m.disable)
}

pub proof fn lemma_retained_step(methods: Seq<Method>, i: int)
    requires
        0 <= i < methods.len(),
    ensures
        retained(methods.take(i + 1)) == if methods[i].disable {
            retained(methods.take(i))
        } else {
            retained(methods.take(i)).push(methods[i])
        },
{
    reveal(Seq::filter);
    assert(methods.take(i + 1).drop_last() == methods.take(i));
    assert(methods.take(i + 1).last() == methods[i]);
}

pub proof fn lemma_retained_split(methods: Seq<Method>, i: int)
    requires
        0 <= i <= methods.len(),
    ensures
        retained(methods) == retained(methods.take(i)) + retained(methods.skip(i)),
{
    assert(methods == methods.take(i) + methods.skip(i));
    Seq::filter_distributes_over_add(methods.take(i), methods.skip(i), |m: Method| !m.disable);
}

/// The lowerings of the retained methods.
pub open spec fn method_templates(tcx: &TypeContext, methods: Seq<Method>) -> Seq<
    Result<MethodView, LoweringError>,
> {
    retained(methods).map_values(|m: Method| method_template(tcx, m))
}

/// The callback wrappers of the retained methods.
pub open spec fn impl_wrappers(tcx: &TypeContext, methods: Seq<Method>) -> Seq<WrapperView> {
    concat_all(retained(methods).map_values(|m: Method| method_wrappers(tcx, m)))
}

/// The files that the retained methods depend on.
pub open spec fn impl_includes(tcx: &TypeContext, methods: Seq<Method>) -> Set<Seq<char>> {
    union_all(retained(methods).map_values(|m: Method| method_includes(tcx, m)))
}

/// The diagnostics that the retained methods of the definition called
/// `name` raise, each under the method that raised it.
pub open spec fn impl_entries(tcx: &TypeContext, name: Seq<char>, methods: Seq<Method>) -> Seq<
    (ContextView, Seq<char>),
> {
    concat_all(
        retained(methods).map_values(
            |m: Method| ErrorStore::under((name, m.name@), method_diagnostics(tcx, m)),
        ),
    )
}

/// Before any method is looked at, nothing has been lowered.
pub proof fn lemma_impl_start(tcx: &TypeContext, name: Seq<char>, methods: Seq<Method>)
    ensures
        method_templates(tcx, methods.take(0)) == Seq::<Result<MethodView, LoweringError>>::empty(),
        impl_wrappers(tcx, methods.take(0)) == Seq::<WrapperView>::empty(),
        impl_includes(tcx, methods.take(0)) == Set::<Seq<char>>::empty(),
        impl_entries(tcx, name, methods.take(0)) == Seq::<(ContextView, Seq<char>)>::empty(),
{
    reveal(Seq::filter);
    assert(methods.take(0) =~= Seq::<Method>::empty());
    assert(retained(methods.take(0)) =~= Seq::<Method>::empty());
    assert(method_templates(tcx, methods.take(0)) =~= Seq::empty());
    assert(retained(methods.take(0)).map_values(|m: Method| method_wrappers(tcx, m)) =~= Seq::empty());
    assert(retained(methods.take(0)).map_values(|m: Method| method_includes(tcx, m)) =~= Seq::empty());
    assert(retained(methods.take(0)).map_values(
        |m: Method| ErrorStore::under((name, m.name@), method_diagnostics(tcx, m)),
    ) =~= Seq::empty());
}

/// A disabled method adds nothing to what the methods before it gave.
pub proof fn lemma_impl_skip(tcx: &TypeContext, name: Seq<char>, methods: Seq<Method>, i: int)
    requires
        0 <= i < methods.len(),
        methods[i].disable,
    ensures
        method_templates(tcx, methods.take(i + 1)) == method_templates(tcx, methods.take(i)),
        impl_wrappers(tcx, methods.take(i + 1)) == impl_wrappers(tcx, methods.take(i)),
        impl_includes(tcx, methods.take(i + 1)) == impl_includes(tcx, methods.take(i)),
        impl_entries(tcx, name, methods.take(i + 1)) == impl_entries(tcx, name, methods.take(i)),
{
    lemma_retained_step(methods, i);
}

/// A retained method adds its own lowering, wrappers, includes and
/// diagnostics after what the methods before it gave.
pub proof fn lemma_impl_step(tcx: &TypeContext, name: Seq<char>, methods: Seq<Method>, i: int)
    requires
        0 <= i < methods.len(),
        !methods[i].disable,
    ensures
        method_templates(tcx, methods.take(i + 1)) == method_templates(tcx, methods.take(i)).push(
            method_template(tcx, methods[i]),
        ),
        collect(method_templates(tcx, methods.take(i + 1))) == match collect(
            method_templates(tcx, methods.take(i)),
        ) {
            Err(e) => Err::<Seq<MethodView>, LoweringError>(e),
            Ok(done) => match method_template(tcx, methods[i]) {
                Ok(x) => Ok(done.push(x)),
                Err(e) => Err(e),
            },
        },
        impl_wrappers(tcx, methods.take(i + 1)) == impl_wrappers(tcx, methods.take(i))
            + method_wrappers(tcx, methods[i]),
        impl_includes(tcx, methods.take(i + 1)) == impl_includes(tcx, methods.take(i)).union(
            method_includes(tcx, methods[i]),
        ),
        impl_entries(tcx, name, methods.take(i + 1)) == impl_entries(tcx, name, methods.take(i))
            + ErrorStore::under((name, methods[i].name@), method_diagnostics(tcx, methods[i])),
{
    lemma_retained_step(methods, i);
    let kept = retained(methods.take(i));
    let next = retained(methods.take(i + 1));
    let m = methods[i];
    assert(next == kept.push(m));
    let t = method_templates(tcx, methods.take(i));
    let t2 = method_templates(tcx, methods.take(i + 1));
    assert(t2 =~= t.push(method_template(tcx, m)));
    assert(t2.drop_last() =~= t);
    let w = kept.map_values(|m: Method| method_wrappers(tcx, m));
    let w2 = next.map_values(|m: Method| method_wrappers(tcx, m));
    assert(w2 =~= w.push(method_wrappers(tcx, m)));
    assert(w2.drop_last() =~= w);
    let n = kept.map_values(|m: Method| method_includes(tcx, m));
    let n2 = next.map_values(|m: Method| method_includes(tcx, m));
    assert(n2 =~= n.push(method_includes(tcx, m)));
    assert(n2.drop_last() =~= n);
    let d = kept.map_values(
        |m: Method| ErrorStore::under((name, m.name@), method_diagnostics(tcx, m)),
    );
    let d2 = next.map_values(
        |m: Method| ErrorStore::under((name, m.name@), method_diagnostics(tcx, m)),
    );
    assert(d2 =~= d.push(ErrorStore::under((name, m.name@), method_diagnostics(tcx, m))));
    assert(d2.drop_last() =~= d);
}

/// Once the methods up to some point have failed, all of them fail in the
/// same way.
pub proof fn lemma_impl_failed(tcx: &TypeContext, methods: Seq<Method>, i: int)
    requires
        0 <= i <= methods.len(),
        collect(method_templates(tcx, methods.take(i))) is Err,
    ensures
        collect(method_templates(tcx, methods)) == collect(method_templates(tcx, methods.take(i))),
{
    lemma_retained_split(methods, i);
    let first = method_templates(tcx, methods.take(i));
    let rest = method_templates(tcx, methods.skip(i));
    assert(method_templates(tcx, methods) =~= first + rest);
    lemma_collect_prefix_failed(first, rest);
}

/// The name of the destructor on the ABI: only an opaque has one.
pub open spec fn dtor_name(ty: TypeDef) -> Option<Seq<char>> {
    match ty {
        TypeDef::Opaque(d) => Some(d.dtor_abi_name@),
        _ => None,
    }
}

/// The parts that the file of methods of a definition is written from.
pub struct ImplView {
    pub methods: Seq<MethodView>,
    pub cb_structs_and_defs: Seq<WrapperView>,
    pub ty_name: Seq<char>,
    pub dtor_name: Option<Seq<char>>,
    pub dtor_method_name: Seq<char>,
}

/// The lowering of the methods of the definition `id`, whose methods and
/// destructor are those of `ty`.
pub open spec fn impl_template(tcx: &TypeContext, id: SymbolId, ty: TypeDef) -> Result<
    ImplView,
    LoweringError,
> {
    match own_type_name(tcx, id) {
        Err(e) => Err(e),
        Ok(name) => match collect(method_templates(tcx, ty.spec_methods())) {
            Err(e) => Err(e),
            Ok(methods) => Ok(
                ImplView {
                    methods,
                    cb_structs_and_defs: impl_wrappers(tcx, ty.spec_methods()),
                    ty_name: name,
                    dtor_name: dtor_name(ty),
                    dtor_method_name: match dtor_name(ty) {
                        Some(d) => lowercase_of(d),
                        None => Seq::empty(),
                    },
                },
            ),
        },
    }
}

} // verus!
