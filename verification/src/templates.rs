//! The parts that the generated files are written from.
use crate::lowering::{DeclView, ImplView, MethodView, WrapperView};
use vstd::prelude::*;

verus! {

/// A wrapper around a callback argument: the name of the wrapper, and the
/// parameter list and return type of the function pointer in it.
#[derive(Debug)]
pub struct CallbackAndStructDef {
    pub name: String,
    pub params_types: String,
    pub return_type: String,
}

impl CallbackAndStructDef {
    pub open spec fn view(&self) -> WrapperView {
        (self.name@, self.params_types@, self.return_type@)
    }
}

/// The views of a list of wrappers.
pub open spec fn wrapper_views(v: Seq<CallbackAndStructDef>) -> Seq<WrapperView> {
    v.map_values(|w: CallbackAndStructDef| w@)
}

/// The parts of a method that the generated file is written from: the
/// return type, the parameter list with and without types, the name on the
/// ABI and the name in the generated code.
#[derive(Debug)]
pub struct MethodTemplate {
    pub return_ty: String,
    pub params: String,
    pub param_names: String,
    pub abi_name: String,
    pub method_name: String,
}

impl MethodTemplate {
    pub open spec fn view(&self) -> MethodView {
        MethodView {
            return_ty: self.return_ty@,
            params: self.params@,
            param_names: self.param_names@,
            abi_name: self.abi_name@,
            method_name: self.method_name@,
        }
    }
}

/// What the file of methods of a definition is written from: its methods,
/// the wrappers of their callback parameters, the name of the definition,
/// and the destructor of an opaque under its name on the ABI and in the
/// generated code.
#[derive(Debug)]
pub struct ImplTemplate {
    pub methods: Vec<MethodTemplate>,
    pub cb_structs_and_defs: Vec<CallbackAndStructDef>,
    pub ty_name: String,
    pub dtor_name: Option<String>,
    pub dtor_method_name: String,
}

/// The views of a list of lowered methods.
pub open spec fn method_views(v: Seq<MethodTemplate>) -> Seq<MethodView> {
    v.map_values(|m: MethodTemplate| m@)
}

impl ImplTemplate {
    pub open spec fn view(&self) -> ImplView {
        ImplView {
            methods: method_views(self.methods@),
            cb_structs_and_defs: wrapper_views(self.cb_structs_and_defs@),
            ty_name: self.ty_name@,
            dtor_name: match self.dtor_name {
                Some(d) => Some(d@),
                None => None,
            },
            dtor_method_name: self.dtor_method_name@,
        }
    }
}

/// What the declaration of an enum is written from: its name and the flat
/// names of its variants.
#[derive(Debug)]
pub struct EnumTemplate {
    pub ty_name: String,
    pub variants: Vec<String>,
}

/// What the declaration of a struct is written from: its name and its
/// fields, each as type and name, in declared order.
#[derive(Debug)]
pub struct StructTemplate {
    pub ty_name: String,
    pub fields: Vec<(String, String)>,
}

/// What the declaration of a trait is written from: its name and one
/// function pointer for each method.
#[derive(Debug)]
pub struct TraitTemplate {
    pub trt_name: String,
    pub method_sigs: Vec<String>,
}

/// What the declaration of an opaque is written from: its name.
#[derive(Debug)]
pub struct OpaqueTemplate {
    pub ty_name: String,
}

/// The views of a list of declarations.
pub open spec fn decl_views(v: Seq<(String, String)>) -> Seq<DeclView> {
    v.map_values(|d: (String, String)| (d.0@, d.1@))
}

} // verus!
