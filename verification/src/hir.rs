//! The type universe that the backend reads: definitions, methods and the
//! types in their signatures, as plain data.
//!
//! The scalar kinds, mutability and string encodings are the enums of
//! `diplomat_core`; everything that refers to a definition does so by its
//! index in the `TypeContext`.
use diplomat_core::hir::{
    FloatType, Int128Type, IntSizeType, IntType, Mutability, PrimitiveType, StringEncoding,
};
use vstd::prelude::*;

verus! {

/// `diplomat_core::hir::IntType`, by its variants: the integers of 8 to 64
/// bits.
#[verifier::external_type_specification]
pub struct ExIntType(IntType);

/// `diplomat_core::hir::IntSizeType`, by its variants: the two integers of
/// the platform's width.
#[verifier::external_type_specification]
pub struct ExIntSizeType(IntSizeType);

/// `diplomat_core::hir::Int128Type`, by its variants: the two integers of
/// 128 bits.
#[verifier::external_type_specification]
pub struct ExInt128Type(Int128Type);

/// `diplomat_core::hir::FloatType`, by its variants: the two floating
/// point kinds.
#[verifier::external_type_specification]
pub struct ExFloatType(FloatType);

/// `diplomat_core::hir::PrimitiveType`, by its variants: every scalar that
/// can cross the boundary.
#[verifier::external_type_specification]
pub struct ExPrimitiveType(PrimitiveType);

/// `diplomat_core::hir::Mutability`, by its two variants.
#[verifier::external_type_specification]
pub struct ExMutability(Mutability);

/// `diplomat_core::hir::StringEncoding`, by its variants. The enum may get
/// more of them: nothing here depends on there being just these.
#[verifier::external_type_specification]
pub struct ExStringEncoding(StringEncoding);

/// Names a struct, opaque or enum definition of a `TypeContext`.
#[derive(Clone, Copy, Debug, PartialEq, Eq, Structural)]
pub enum TypeId {
    Struct(usize),
    OutStruct(usize),
    Opaque(usize),
    Enum(usize),
}

/// Names a trait definition of a `TypeContext`.
#[derive(Clone, Copy, Debug, PartialEq, Eq, Structural)]
pub struct TraitId(pub usize);

/// Names anything that has a name of its own.
#[derive(Clone, Copy, Debug, PartialEq, Eq, Structural)]
pub enum SymbolId {
    TypeId(TypeId),
    TraitId(TraitId),
    FunctionId(usize),
}

/// A struct by the list it is kept in.
#[derive(Clone, Copy, Debug, PartialEq, Eq, Structural)]
pub enum StructPath {
    Struct(usize),
    OutStruct(usize),
}

impl StructPath {
    pub open spec fn spec_id(self) -> TypeId {
        match self {
            StructPath::Struct(i) => TypeId::Struct(i),
            StructPath::OutStruct(i) => TypeId::OutStruct(i),
        }
    }

    /// The identifier of the struct.
    #[verifier::when_used_as_spec(spec_id)]
    pub fn id(self) -> (r: TypeId)
        ensures
            r == self.spec_id(),
    {
        match self {
            StructPath::Struct(i) => TypeId::Struct(i),
            StructPath::OutStruct(i) => TypeId::OutStruct(i),
        }
    }
}

/// Whether a value is handed over or lent, and how.
#[derive(Clone, Copy, Debug)]
pub enum MaybeOwn {
    Own,
    Borrow(Mutability),
}

impl MaybeOwn {
    pub open spec fn spec_mutability(self) -> Option<Mutability> {
        match self {
            MaybeOwn::Own => None,
            MaybeOwn::Borrow(m) => Some(m),
        }
    }

    /// The mutability of the borrow; none for an owned value.
    #[verifier::when_used_as_spec(spec_mutability)]
    pub fn mutability(self) -> (r: Option<Mutability>)
        ensures
            r == self.spec_mutability(),
    {
        match self {
            MaybeOwn::Own => None,
            MaybeOwn::Borrow(m) => Some(m),
        }
    }
}

/// A reference to an opaque definition.
#[derive(Clone, Copy, Debug)]
pub struct OpaquePath {
    pub tcx_id: usize,
    pub owner: MaybeOwn,
}

/// A contiguous view handed across the boundary.
#[derive(Clone, Copy, Debug)]
pub enum Slice {
    /// A string in the given encoding.
    Str(StringEncoding),
    /// A run of scalars.
    Primitive(MaybeOwn, PrimitiveType),
    /// A run of strings in the given encoding.
    Strs(StringEncoding),
}

/// One parameter of a callback or of a trait method.
#[derive(Debug)]
pub struct CallbackParam {
    pub ty: Type,
}

/// A function handed in as an argument.
#[derive(Debug)]
pub struct Callback {
    pub params: Vec<CallbackParam>,
    pub output: Option<Box<Type>>,
}

/// A type in a signature or a field.
#[derive(Debug)]
pub enum Type {
    Primitive(PrimitiveType),
    Opaque(OpaquePath),
    Struct(StructPath),
    ImplTrait(TraitId),
    Enum(usize),
    Slice(Slice),
    Callback(Callback),
    DiplomatOption(Box<Type>),
}

/// The type of a receiver.
#[derive(Clone, Copy, Debug)]
pub enum SelfType {
    Opaque(usize, Mutability),
    Struct(StructPath),
    Enum(usize),
}

impl SelfType {
    pub open spec fn spec_to_type(self) -> Type {
        match self {
            SelfType::Opaque(i, m) => Type::Opaque(
                OpaquePath { tcx_id: i, owner: MaybeOwn::Borrow(m) },
            ),
            SelfType::Struct(p) => Type::Struct(p),
            SelfType::Enum(i) => Type::Enum(i),
        }
    }

    /// The receiver as an ordinary type: an opaque receiver is always lent.
    #[verifier::when_used_as_spec(spec_to_type)]
    pub fn to_type(self) -> (r: Type)
        ensures
            r == self.spec_to_type(),
    {
        match self {
            SelfType::Opaque(i, m) => Type::Opaque(
                OpaquePath { tcx_id: i, owner: MaybeOwn::Borrow(m) },
            ),
            SelfType::Struct(p) => Type::Struct(p),
            SelfType::Enum(i) => Type::Enum(i),
        }
    }
}

/// What a method hands back when it succeeds.
#[derive(Debug)]
pub enum SuccessType {
    /// Text written to a sink that the caller passes in.
    Write,
    OutType(Type),
    Unit,
}

/// What a method hands back.
#[derive(Debug)]
pub enum ReturnType {
    Infallible(SuccessType),
    Fallible(SuccessType, Option<Type>),
    Nullable(SuccessType),
}

#[derive(Debug)]
pub struct Param {
    pub name: String,
    pub ty: Type,
}

#[derive(Debug)]
pub struct Method {
    pub name: String,
    pub abi_name: String,
    pub param_self: Option<SelfType>,
    pub params: Vec<Param>,
    pub output: ReturnType,
    /// Whether the method is left out of the generated code.
    pub disable: bool,
}

#[derive(Debug)]
pub struct StructField {
    pub name: String,
    pub ty: Type,
}

#[derive(Debug)]
pub struct StructDef {
    pub name: String,
    pub fields: Vec<StructField>,
    pub methods: Vec<Method>,
    pub disable: bool,
}

#[derive(Debug)]
pub struct OpaqueDef {
    pub name: String,
    pub methods: Vec<Method>,
    pub disable: bool,
    pub dtor_abi_name: String,
}

#[derive(Debug)]
pub struct EnumVariant {
    pub name: String,
}

#[derive(Debug)]
pub struct EnumDef {
    pub name: String,
    pub variants: Vec<EnumVariant>,
    pub methods: Vec<Method>,
    pub disable: bool,
}

/// One method of a trait.
#[derive(Debug)]
pub struct TraitMethod {
    pub name: String,
    pub params: Vec<CallbackParam>,
    pub output: Option<Type>,
}

#[derive(Debug)]
pub struct TraitDef {
    pub name: String,
    pub methods: Vec<TraitMethod>,
    pub disable: bool,
}

/// A definition that a `TypeId` resolves to.
#[derive(Clone, Copy, Debug)]
pub enum TypeDef<'tcx> {
    Struct(&'tcx StructDef),
    OutStruct(&'tcx StructDef),
    Opaque(&'tcx OpaqueDef),
    Enum(&'tcx EnumDef),
}

impl<'tcx> TypeDef<'tcx> {
    pub open spec fn spec_name(self) -> Seq<char> {
        match self {
            TypeDef::Struct(d) => d.name@,
            TypeDef::OutStruct(d) => d.name@,
            TypeDef::Opaque(d) => d.name@,
            TypeDef::Enum(d) => d.name@,
        }
    }

    pub open spec fn spec_disabled(self) -> bool {
        match self {
            TypeDef::Struct(d) => d.disable,
            TypeDef::OutStruct(d) => d.disable,
            TypeDef::Opaque(d) => d.disable,
            TypeDef::Enum(d) => d.disable,
        }
    }

    pub open spec fn spec_methods(self) -> Seq<Method> {
        match self {
            TypeDef::Struct(d) => d.methods@,
            TypeDef::OutStruct(d) => d.methods@,
            TypeDef::Opaque(d) => d.methods@,
            TypeDef::Enum(d) => d.methods@,
        }
    }

    /// The display name of the definition.
    pub fn name(&self) -> (r: &'tcx String)
        ensures
            r@ == self.spec_name(),
    {
        match *self {
            TypeDef::Struct(d) => &d.name,
            TypeDef::OutStruct(d) => &d.name,
            TypeDef::Opaque(d) => &d.name,
            TypeDef::Enum(d) => &d.name,
        }
    }

    /// Whether the definition is left out of the generated code.
    pub fn disabled(&self) -> (r: bool)
        ensures
            r == self.spec_disabled(),
    {
        match *self {
            TypeDef::Struct(d) => d.disable,
            TypeDef::OutStruct(d) => d.disable,
            TypeDef::Opaque(d) => d.disable,
            TypeDef::Enum(d) => d.disable,
        }
    }

    /// The methods of the definition, in declaration order.
    pub fn methods(&self) -> (r: &'tcx Vec<Method>)
        ensures
            r@ == self.spec_methods(),
    {
        match *self {
            TypeDef::Struct(d) => &d.methods,
            TypeDef::OutStruct(d) => &d.methods,
            TypeDef::Opaque(d) => &d.methods,
            TypeDef::Enum(d) => &d.methods,
        }
    }
}

/// All definitions that the generator knows, each kind in a list of its own.
#[derive(Debug)]
pub struct TypeContext {
    pub structs: Vec<StructDef>,
    pub out_structs: Vec<StructDef>,
    pub opaques: Vec<OpaqueDef>,
    pub enums: Vec<EnumDef>,
    pub traits: Vec<TraitDef>,
}

impl TypeContext {
    /// The definition that `id` names, if the universe holds it.
    pub open spec fn type_def(&self, id: TypeId) -> Option<TypeDef<'_>> {
        match id {
            TypeId::Struct(i) => if i < self.structs@.len() {
                Some(TypeDef::Struct(&self.structs@[i as int]))
            } else {
                None
            },
            TypeId::OutStruct(i) => if i < self.out_structs@.len() {
                Some(TypeDef::OutStruct(&self.out_structs@[i as int]))
            } else {
                None
            },
            TypeId::Opaque(i) => if i < self.opaques@.len() {
                Some(TypeDef::Opaque(&self.opaques@[i as int]))
            } else {
                None
            },
            TypeId::Enum(i) => if i < self.enums@.len() {
                Some(TypeDef::Enum(&self.enums@[i as int]))
            } else {
                None
            },
        }
    }

    /// The trait that `id` names, if the universe holds it.
    pub open spec fn trait_def(&self, id: TraitId) -> Option<&TraitDef> {
        if id.0 < self.traits@.len() {
            Some(&self.traits@[id.0 as int])
        } else {
            None
        }
    }

    /// The display name behind a symbol: none for a function, or for an
    /// identifier that the universe does not hold.
    pub open spec fn symbol_name(&self, id: SymbolId) -> Option<Seq<char>> {
        match id {
            SymbolId::TypeId(t) => match self.type_def(t) {
                Some(d) => Some(d.spec_name()),
                None => None,
            },
            SymbolId::TraitId(t) => match self.trait_def(t) {
                Some(d) => Some(d.name@),
                None => None,
            },
            SymbolId::FunctionId(_) => None,
        }
    }

    /// Whether the definition behind a symbol is disabled.
    pub open spec fn symbol_disabled(&self, id: SymbolId) -> bool {
        match id {
            SymbolId::TypeId(t) => match self.type_def(t) {
                Some(d) => d.spec_disabled(),
                None => false,
            },
            SymbolId::TraitId(t) => match self.trait_def(t) {
                Some(d) => d.disable,
                None => false,
            },
            SymbolId::FunctionId(_) => false,
        }
    }

    /// An empty universe.
    pub fn new() -> (r: TypeContext)
        ensures
            r.structs@.len() == 0,
            r.out_structs@.len() == 0,
            r.opaques@.len() == 0,
            r.enums@.len() == 0,
            r.traits@.len() == 0,
    {
        TypeContext {
            structs: Vec::new(),
            out_structs: Vec::new(),
            opaques: Vec::new(),
            enums: Vec::new(),
            traits: Vec::new(),
        }
    }

    /// Looks a type definition up.
    pub fn resolve_type(&self, id: TypeId) -> (r: Option<TypeDef<'_>>)
        ensures
            r == self.type_def(id),
    {
        match id {
            TypeId::Struct(i) => if i < self.structs.len() {
                Some(TypeDef::Struct(&self.structs[i]))
            } else {
                None
            },
            TypeId::OutStruct(i) => if i < self.out_structs.len() {
                Some(TypeDef::OutStruct(&self.out_structs[i]))
            } else {
                None
            },
            TypeId::Opaque(i) => if i < self.opaques.len() {
                Some(TypeDef::Opaque(&self.opaques[i]))
            } else {
                None
            },
            TypeId::Enum(i) => if i < self.enums.len() {
                Some(TypeDef::Enum(&self.enums[i]))
            } else {
                None
            },
        }
    }

    /// Looks a trait definition up.
    pub fn resolve_trait(&self, id: TraitId) -> (r: Option<&TraitDef>)
        ensures
            r == self.trait_def(id),
    {
        if id.0 < self.traits.len() {
            Some(&self.traits[id.0])
        } else {
            None
        }
    }
}

} // verus!
