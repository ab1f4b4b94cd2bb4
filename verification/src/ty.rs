//! The lowering engine: from definitions and methods to the parts of the
//! generated files.
use crate::effects::{
    is_unit, lemma_lowered_nothing, lemma_lowered_then, lowered, lowered_if, reported,
};
use crate::errors::{ContextView, ErrorStore, LoweringError};
use crate::formatter::{decl_header_path, is_result, CFormatter};
use crate::header::Header;
use crate::hir::{
    Callback, CallbackParam, EnumDef, Method, OpaqueDef, Param, ReturnType, Slice, StructDef,
    StructField, SuccessType, SymbolId, TraitDef, TraitMethod, Type, TypeContext, TypeDef, TypeId,
};
use crate::lowering::{
    bare_params, callback_diagnostics, callback_includes, callback_param_names,
    callback_params_diagnostics, callback_params_includes, callback_params_types,
    callback_wrapper, collect, concat_all, disabled_message, enum_variants, impl_entries,
    impl_includes, impl_template, impl_wrappers, lemma_collect_failed,
    lemma_collect_step, lemma_concat_all_step, lemma_impl_failed, lemma_impl_skip,
    lemma_impl_start, lemma_impl_step, lemma_union_all_step, method_diagnostics, method_includes,
    method_template, method_templates, method_wrappers, output_diagnostics, output_includes,
    own_trait_name, own_type_name, param_decl_results, payload, receiver_decl, result_tag,
    result_ty_diagnostics, result_ty_includes, result_ty_name, retained, return_diagnostics,
    return_includes, struct_diagnostics, struct_fields, struct_includes, success_payload,
    trait_diagnostics, trait_includes, trait_method_diagnostics, trait_method_includes,
    trait_method_sig, trait_sigs, ty_decl, ty_decl_diagnostics, ty_decl_includes,
    ty_decl_wrappers, ty_diagnostics, ty_includes, ty_name, typed_params, union_all, write_sink,
    DeclView, ImplView, MethodView, WrapperView,
};
use crate::templates::{
    decl_views, method_views, wrapper_views, CallbackAndStructDef, EnumTemplate, ImplTemplate,
    MethodTemplate, OpaqueTemplate, StructTemplate, TraitTemplate,
};
use crate::text::{concat2, concat3, join, to_lowercase, views};
use diplomat_core::hir::Mutability;
use vstd::prelude::*;
use vstd::string::StringExecFns;

verus! {

/// Whether an executable declaration is the given specification result.
pub open spec fn is_decl(r: Result<(String, String), LoweringError>, s: Result<DeclView, LoweringError>) -> bool {
    match r {
        Ok(d) => s == Ok::<DeclView, LoweringError>((d.0@, d.1@)),
        Err(e) => s == Err::<DeclView, LoweringError>(e),
    }
}

/// An optional reference to a type as an optional type.
pub open spec fn opt_ty(o: Option<&Type>) -> Option<Type> {
    match o {
        Some(t) => Some(*t),
        None => None,
    }
}

/// Whether `s` is the text `lit`.
fn spells(s: &String, lit: &str) -> (r: bool)
    ensures
        r == (s@ == lit@),
{
    *s == String::from_str(lit)
}

/// The tag of a success spelling inside the name of a result type.
pub fn result_tag_of(spelling: &str) -> (r: Option<&'static str>)
    ensures
        match r {
            Some(tag) => result_tag(spelling@) == Some(tag@),
            None => result_tag(spelling@) is None,
        },
{
    let s = String::from_str(spelling);
    if spells(&s, "c_int8_t") || spells(&s, "c_int8") {
        Some("I8")
    } else if spells(&s, "c_uint8_t") || spells(&s, "c_uint8") {
        Some("U8")
    } else if spells(&s, "c_int16_t") || spells(&s, "c_int16") {
        Some("I16")
    } else if spells(&s, "c_uint16_t") || spells(&s, "c_uint16") {
        Some("U16")
    } else if spells(&s, "c_int32_t") || spells(&s, "c_int32") {
        Some("I32")
    } else if spells(&s, "c_uint32_t") || spells(&s, "c_uint32") {
        Some("U32")
    } else if spells(&s, "c_int64_t") || spells(&s, "c_int64") {
        Some("I64")
    } else if spells(&s, "c_uint64_t") || spells(&s, "c_uint64") {
        Some("U64")
    } else if spells(&s, "intptr_t") || spells(&s, "c_intptr") {
        Some("Isize")
    } else if spells(&s, "c_size_t") || spells(&s, "c_size") {
        Some("Usize")
    } else if spells(&s, "c_float") {
        Some("F32")
    } else if spells(&s, "c_double") {
        Some("F64")
    } else if spells(&s, "c_bool") {
        Some("Bool")
    } else if spells(&s, "c_char32_t") || spells(&s, "c_char32") {
        Some("Char")
    } else if spells(&s, "c_char") {
        Some("String")
    } else if spells(&s, "c_char16_t") || spells(&s, "c_char16") {
        Some("String16")
    } else if spells(&s, "DiplomatStringView") {
        Some("Strings")
    } else if spells(&s, "DiplomatString16View") {
        Some("Strings16")
    } else {
        None
    }
}

/// An optional string by its characters.
pub open spec fn opt_view(o: Option<&str>) -> Option<Seq<char>> {
    match o {
        Some(s) => Some(s@),
        None => None,
    }
}

/// What generating one definition needs: the universe, the formatter, the
/// definition and the paths of its two files.
pub struct TyGenContext<'cx, 'tcx> {
    pub tcx: &'tcx TypeContext,
    pub formatter: &'cx CFormatter<'tcx>,
    pub id: SymbolId,
    pub decl_header_path: &'cx String,
    pub impl_header_path: &'cx String,
}

impl<'cx, 'tcx> TyGenContext<'cx, 'tcx> {
    /// The formatter reads the same universe as the context.
    pub open spec fn wf(&self) -> bool {
        self.formatter.tcx() == self.tcx
    }

    /// A context for the definition `id`, over the formatter's universe.
    pub fn new(
        formatter: &'cx CFormatter<'tcx>,
        id: SymbolId,
        decl_header_path: &'cx String,
        impl_header_path: &'cx String,
    ) -> (r: Self)
        ensures
            r.wf(),
            r.tcx == formatter.tcx(),
            r.formatter == formatter,
            r.id == id,
            r.decl_header_path == decl_header_path,
            r.impl_header_path == impl_header_path,
    {
        TyGenContext { tcx: formatter.tcx(), formatter, id, decl_header_path, impl_header_path }
    }

    /// The name of the definition being generated, which has to be a type.
    fn own_type_name(&self) -> (r: Result<String, LoweringError>)
        requires
            self.wf(),
        ensures
            is_result(r, own_type_name(self.tcx, self.id)),
    {
        match self.id {
            SymbolId::TypeId(id) => match self.formatter.check_symbol(self.id) {
                Ok(_) => Ok(self.formatter.fmt_type_name(id)),
                Err(e) => Err(e),
            },
            _ => Err(LoweringError::SymbolKindMismatch),
        }
    }

    /// The declaration of an enum: a fresh file at the declaration path,
    /// and the flat names of the variants in declared order.
    ///
    /// Where this cannot be done, the reason is returned: the first one met,
    /// in the order in which the parts are lowered.
    pub fn try_gen_enum_def(&self, def: &EnumDef) -> (r: Result<(Header, EnumTemplate), LoweringError>)
        requires
            self.wf(),
        ensures
            match r {
                Ok(v) => {
                    &&& v.0.is_fresh(self.decl_header_path@)
                    &&& own_type_name(self.tcx, self.id) == Ok::<Seq<char>, LoweringError>(
                        v.1.ty_name@,
                    )
                    &&& views(v.1.variants@) == enum_variants(v.1.ty_name@, *def)
                },
                Err(e) => own_type_name(self.tcx, self.id) == Err::<Seq<char>, LoweringError>(e),
            },
    {
        let decl_header = Header::new(self.decl_header_path.clone());
        let ty_name = match self.own_type_name() {
            Ok(name) => name,
            Err(e) => { return Err(e); },
        };
        let mut variants: Vec<String> = Vec::new();
        let mut i: usize = 0;
        while i < def.variants.len()
            invariant
                i <= def.variants@.len(),
                views(variants@) == enum_variants(ty_name@, *def).take(i as int),
            decreases def.variants.len() - i,
        {
            let ghost before = views(variants@);
            let v = self.formatter.fmt_enum_variant(ty_name.as_str(), &def.variants[i]);
            variants.push(v);
            proof {
                assert(views(variants@) =~= before.push(v@));
                assert(enum_variants(ty_name@, *def).take(i + 1) =~= enum_variants(
                    ty_name@,
                    *def,
                ).take(i as int).push(v@));
            }
            i += 1;
        }
        proof {
            assert(enum_variants(ty_name@, *def).take(i as int) == enum_variants(ty_name@, *def));
        }
        Ok((decl_header, EnumTemplate { ty_name, variants }))
    }

    /// The declaration of an opaque: a fresh file at the declaration path
    /// and the name. An opaque shows no fields.
    ///
    /// Where this cannot be done, the reason is returned: the first one met,
    /// in the order in which the parts are lowered.
    pub fn try_gen_opaque_def(&self, _def: &OpaqueDef) -> (r: Result<
        (Header, OpaqueTemplate),
        LoweringError,
    >)
        requires
            self.wf(),
        ensures
            match r {
                Ok(v) => {
                    &&& v.0.is_fresh(self.decl_header_path@)
                    &&& own_type_name(self.tcx, self.id) == Ok::<Seq<char>, LoweringError>(
                        v.1.ty_name@,
                    )
                },
                Err(e) => own_type_name(self.tcx, self.id) == Err::<Seq<char>, LoweringError>(e),
            },
    {
        let decl_header = Header::new(self.decl_header_path.clone());
        match self.own_type_name() {
            Ok(ty_name) => Ok((decl_header, OpaqueTemplate { ty_name })),
            Err(e) => Err(e),
        }
    }

    /// The declaration of a struct: its fields, each with its lowered
    /// type, in declared order, in a file at the declaration path whose
    /// includes are the declarations that the field types refer to.
    ///
    /// Where this cannot be done, the reason is returned: the first one met,
    /// in the order in which the parts are lowered.
    pub fn try_gen_struct_def(&self, def: &StructDef, errors: &mut ErrorStore) -> (r: Result<
        (Header, StructTemplate),
        LoweringError,
    >)
        requires
            self.wf(),
        ensures
            final(errors).current() == old(errors).current(),
            old(errors).entries().is_prefix_of(final(errors).entries()),
            match r {
                Ok(v) => {
                    &&& own_type_name(self.tcx, self.id) == Ok::<Seq<char>, LoweringError>(
                        v.1.ty_name@,
                    )
                    &&& struct_fields(self.tcx, *def) == Ok::<Seq<DeclView>, LoweringError>(
                        decl_views(v.1.fields@),
                    )
                    &&& is_unit(
                        v.0,
                        self.decl_header_path@,
                        None,
                        struct_includes(self.tcx, *def),
                    )
                    &&& reported(
                        *old(errors),
                        *final(errors),
                        ErrorStore::under(
                            old(errors).current(),
                            struct_diagnostics(self.tcx, *def),
                        ),
                    )
                },
                Err(e) => match own_type_name(self.tcx, self.id) {
                    Err(e1) => e == e1,
                    Ok(_) => struct_fields(self.tcx, *def) == Err::<Seq<DeclView>, LoweringError>(e),
                },
            },
    {
        let mut decl_header = Header::new(self.decl_header_path.clone());
        let ty_name = match self.own_type_name() {
            Ok(name) => name,
            Err(e) => { return Err(e); },
        };
        let ghost h0 = decl_header;
        let ghost e0 = *errors;
        let ghost results = def.fields@.map_values(
            |f: StructField| ty_decl(self.tcx, f.ty, f.name@, None),
        );
        let ghost incl = def.fields@.map_values(|f: StructField| ty_decl_includes(self.tcx, f.ty));
        let ghost diag = def.fields@.map_values(
            |f: StructField| ty_decl_diagnostics(self.tcx, f.ty),
        );
        let mut fields: Vec<(String, String)> = Vec::new();
        // Fields hold no callbacks, so no wrapper ever lands here.
        let mut cb_structs_and_defs: Vec<CallbackAndStructDef> = Vec::new();
        proof {
            lemma_lowered_nothing(h0, e0);
            assert(decl_views(fields@) =~= Seq::<DeclView>::empty());
        }
        let mut i: usize = 0;
        while i < def.fields.len()
            invariant
                self.wf(),
                i <= def.fields@.len(),
                e0 == *old(errors),
                own_type_name(self.tcx, self.id) == Ok::<Seq<char>, LoweringError>(ty_name@),
                h0.is_fresh(self.decl_header_path@),
                results == def.fields@.map_values(
                    |f: StructField| ty_decl(self.tcx, f.ty, f.name@, None),
                ),
                incl == def.fields@.map_values(|f: StructField| ty_decl_includes(self.tcx, f.ty)),
                diag == def.fields@.map_values(
                    |f: StructField| ty_decl_diagnostics(self.tcx, f.ty),
                ),
                collect(results.take(i as int)) == Ok::<Seq<DeclView>, LoweringError>(
                    decl_views(fields@),
                ),
                lowered(
                    h0,
                    decl_header,
                    e0,
                    *errors,
                    union_all(incl.take(i as int)),
                    concat_all(diag.take(i as int)),
                ),
            decreases def.fields.len() - i,
        {
            let ghost h1 = decl_header;
            let ghost e1 = *errors;
            let ghost before = decl_views(fields@);
            proof {
                lemma_collect_step(results, i as int);
                lemma_union_all_step(incl, i as int);
                lemma_concat_all_step(diag, i as int);
            }
            let field = &def.fields[i];
            match self.try_gen_ty_decl(
                &field.ty,
                field.name.as_str(),
                &mut decl_header,
                errors,
                None,
                &mut cb_structs_and_defs,
            ) {
                Ok(decl) => {
                    let ghost d = (decl.0@, decl.1@);
                    fields.push(decl);
                    proof {
                        lemma_lowered_then(
                            h0,
                            h1,
                            decl_header,
                            e0,
                            e1,
                            *errors,
                            union_all(incl.take(i as int)),
                            concat_all(diag.take(i as int)),
                            incl[i as int],
                            diag[i as int],
                        );
                        assert(decl_views(fields@) =~= before.push(d));
                    }
                },
                Err(e) => {
                    proof {
                        lemma_collect_failed(results, i + 1);
                    }
                    return Err(e);
                },
            }
            i += 1;
        }
        proof {
            assert(results.take(i as int) == results);
            assert(incl.take(i as int) == incl);
            assert(diag.take(i as int) == diag);
            assert(h0.includes@.union(union_all(incl)) =~= union_all(incl));
        }
        Ok((decl_header, StructTemplate { ty_name, fields }))
    }

    /// The declaration of a trait: one function pointer for each method,
    /// called `run_<method>_callback`, whose first parameter is a pointer
    /// to the caller's context, whether or not the method has a receiver.
    ///
    /// Where this cannot be done, the reason is returned: the first one met,
    /// in the order in which the parts are lowered.
    pub fn try_gen_trait_def(&self, def: &TraitDef, errors: &mut ErrorStore) -> (r: Result<
        (Header, TraitTemplate),
        LoweringError,
    >)
        requires
            self.wf(),
        ensures
            final(errors).current() == old(errors).current(),
            old(errors).entries().is_prefix_of(final(errors).entries()),
            match r {
                Ok(v) => {
                    &&& own_trait_name(self.tcx, self.id) == Ok::<Seq<char>, LoweringError>(
                        v.1.trt_name@,
                    )
                    &&& trait_sigs(self.tcx, *def) == Ok::<Seq<Seq<char>>, LoweringError>(
                        views(v.1.method_sigs@),
                    )
                    &&& is_unit(
                        v.0,
                        self.decl_header_path@,
                        None,
                        trait_includes(self.tcx, *def),
                    )
                    &&& reported(
                        *old(errors),
                        *final(errors),
                        ErrorStore::under(
                            old(errors).current(),
                            trait_diagnostics(self.tcx, *def),
                        ),
                    )
                },
                Err(e) => match own_trait_name(self.tcx, self.id) {
                    Err(e1) => e == e1,
                    Ok(_) => trait_sigs(self.tcx, *def) == Err::<Seq<Seq<char>>, LoweringError>(e),
                },
            },
    {
        let mut decl_header = Header::new(self.decl_header_path.clone());
        let trt_name = match self.id {
            SymbolId::TraitId(id) => match self.formatter.check_symbol(self.id) {
                Ok(_) => self.formatter.fmt_trait_name(id),
                Err(e) => { return Err(e); },
            },
            _ => { return Err(LoweringError::SymbolKindMismatch); },
        };
        let ghost h0 = decl_header;
        let ghost e0 = *errors;
        let ghost results = def.methods@.map_values(
            |m: TraitMethod| trait_method_sig(self.tcx, m),
        );
        let ghost incl = def.methods@.map_values(
            |m: TraitMethod| trait_method_includes(self.tcx, m),
        );
        let ghost diag = def.methods@.map_values(
            |m: TraitMethod| trait_method_diagnostics(self.tcx, m),
        );
        let mut method_sigs: Vec<String> = Vec::new();
        proof {
            lemma_lowered_nothing(h0, e0);
            assert(views(method_sigs@) =~= Seq::<Seq<char>>::empty());
        }
        let mut i: usize = 0;
        while i < def.methods.len()
            invariant
                self.wf(),
                i <= def.methods@.len(),
                e0 == *old(errors),
                own_trait_name(self.tcx, self.id) == Ok::<Seq<char>, LoweringError>(trt_name@),
                h0.is_fresh(self.decl_header_path@),
                results == def.methods@.map_values(
                    |m: TraitMethod| trait_method_sig(self.tcx, m),
                ),
                incl == def.methods@.map_values(
                    |m: TraitMethod| trait_method_includes(self.tcx, m),
                ),
                diag == def.methods@.map_values(
                    |m: TraitMethod| trait_method_diagnostics(self.tcx, m),
                ),
                collect(results.take(i as int)) == Ok::<Seq<Seq<char>>, LoweringError>(
                    views(method_sigs@),
                ),
                lowered(
                    h0,
                    decl_header,
                    e0,
                    *errors,
                    union_all(incl.take(i as int)),
                    concat_all(diag.take(i as int)),
                ),
            decreases def.methods.len() - i,
        {
            let ghost h1 = decl_header;
            let ghost e1 = *errors;
            let ghost before = views(method_sigs@);
            proof {
                lemma_collect_step(results, i as int);
                lemma_union_all_step(incl, i as int);
                lemma_concat_all_step(diag, i as int);
            }
            let m = &def.methods[i];
            let param_types = match self.gen_cb_params_types(&m.params, &mut decl_header, errors) {
                Ok(p) => p,
                Err(e) => {
                    proof {
                        lemma_collect_failed(results, i + 1);
                    }
                    return Err(e);
                },
            };
            let ghost h2 = decl_header;
            let ghost e2 = *errors;
            let ret_type = match &m.output {
                Some(output) => match self.try_gen_ty_name(output, &mut decl_header, errors) {
                    Ok(name) => name,
                    Err(e) => {
                        proof {
                            lemma_collect_failed(results, i + 1);
                        }
                        return Err(e);
                    },
                },
                None => {
                    proof {
                        lemma_lowered_nothing(h2, e2);
                    }
                    "void".to_owned()
                },
            };
            let mut sig = concat3(ret_type.as_str(), " (*run_", m.name.as_str());
            sig.append("_callback)(");
            sig.append(param_types.as_str());
            sig.append(");");
            let ghost sig_view = sig@;
            method_sigs.push(sig);
            proof {
                lemma_lowered_then(
                    h1,
                    h2,
                    decl_header,
                    e1,
                    e2,
                    *errors,
                    callback_params_includes(self.tcx, m.params@),
                    callback_params_diagnostics(self.tcx, m.params@),
                    output_includes(self.tcx, m.output),
                    output_diagnostics(self.tcx, m.output),
                );
                lemma_lowered_then(
                    h0,
                    h1,
                    decl_header,
                    e0,
                    e1,
                    *errors,
                    union_all(incl.take(i as int)),
                    concat_all(diag.take(i as int)),
                    incl[i as int],
                    diag[i as int],
                );
                assert(views(method_sigs@) =~= before.push(sig_view));
            }
            i += 1;
        }
        proof {
            assert(results.take(i as int) == results);
            assert(incl.take(i as int) == incl);
            assert(diag.take(i as int) == diag);
            assert(h0.includes@.union(union_all(incl)) =~= union_all(incl));
        }
        Ok((decl_header, TraitTemplate { trt_name, method_sigs }))
    }

    /// The file of methods of the definition whose methods and destructor
    /// are those of `ty`.
    ///
    /// Disabled methods are left out. The others are lowered in declared
    /// order, each under a context of its own, which is given up again
    /// however the lowering ends. The file names its declaration as its
    /// companion and never includes either of its own two files.
    ///
    /// Where this cannot be done, the reason is returned: the first one met,
    /// in the order in which the parts are lowered.
    pub fn try_gen_impl(&self, ty: TypeDef<'tcx>, errors: &mut ErrorStore) -> (r: Result<
        (Header, ImplTemplate),
        LoweringError,
    >)
        requires
            self.wf(),
        ensures
            final(errors).current() == old(errors).current(),
            old(errors).entries().is_prefix_of(final(errors).entries()),
            match r {
                Ok(v) => {
                    &&& impl_template(self.tcx, self.id, ty) == Ok::<ImplView, LoweringError>(v.1@)
                    &&& is_unit(
                        v.0,
                        self.impl_header_path@,
                        Some(self.decl_header_path@),
                        impl_includes(self.tcx, ty.spec_methods()).remove(
                            self.impl_header_path@,
                        ).remove(self.decl_header_path@),
                    )
                    &&& !v.0.includes@.contains(self.impl_header_path@)
                    &&& !v.0.includes@.contains(self.decl_header_path@)
                    &&& reported(
                        *old(errors),
                        *final(errors),
                        impl_entries(self.tcx, v.1.ty_name@, ty.spec_methods()),
                    )
                },
                Err(e) => impl_template(self.tcx, self.id, ty) == Err::<ImplView, LoweringError>(e),
            },
    {
        let mut impl_header = Header::new(self.impl_header_path.clone());
        let ty_name = match self.own_type_name() {
            Ok(name) => name,
            Err(e) => { return Err(e); },
        };
        let ghost e0 = *errors;
        let ghost all = ty.spec_methods();
        let mut methods: Vec<MethodTemplate> = Vec::new();
        let mut cb_structs_and_defs: Vec<CallbackAndStructDef> = Vec::new();
        let ty_methods = ty.methods();
        proof {
            lemma_impl_start(self.tcx, ty_name@, all);
            assert(method_views(methods@) =~= Seq::<MethodView>::empty());
            assert(wrapper_views(cb_structs_and_defs@) =~= Seq::<WrapperView>::empty());
            assert(e0.entries() + Seq::<(ContextView, Seq<char>)>::empty() =~= e0.entries());
        }
        let mut i: usize = 0;
        while i < ty_methods.len()
            invariant
                self.wf(),
                i <= all.len(),
                all == ty.spec_methods(),
                ty_methods@ == all,
                e0 == *old(errors),
                own_type_name(self.tcx, self.id) == Ok::<Seq<char>, LoweringError>(ty_name@),
                collect(method_templates(self.tcx, all.take(i as int))) == Ok::<
                    Seq<MethodView>,
                    LoweringError,
                >(method_views(methods@)),
                wrapper_views(cb_structs_and_defs@) == impl_wrappers(self.tcx, all.take(i as int)),
                is_unit(
                    impl_header,
                    self.impl_header_path@,
                    None,
                    impl_includes(self.tcx, all.take(i as int)),
                ),
                reported(e0, *errors, impl_entries(self.tcx, ty_name@, all.take(i as int))),
            decreases ty_methods.len() - i,
        {
            let method = &ty_methods[i];
            if method.disable {
                proof {
                    lemma_impl_skip(self.tcx, ty_name@, all, i as int);
                }
            } else {
                let ghost views_before = method_views(methods@);
                let ghost wrappers_before = wrapper_views(cb_structs_and_defs@);
                proof {
                    lemma_impl_step(self.tcx, ty_name@, all, i as int);
                }
                let previous = errors.set_context_method(ty_name.clone(), method.name.clone());
                let lowered_method = self.try_gen_method(method, &mut impl_header, errors);
                errors.restore_context(previous);
                match lowered_method {
                    Ok((method_chunk, mut callback_defs)) => {
                        let ghost chunk = method_chunk@;
                        let ghost defs = wrapper_views(callback_defs@);
                        methods.push(method_chunk);
                        cb_structs_and_defs.append(&mut callback_defs);
                        proof {
                            assert(method_views(methods@) =~= views_before.push(chunk));
                            assert(wrapper_views(cb_structs_and_defs@) =~= wrappers_before + defs);
                            assert(errors.entries() =~= e0.entries() + impl_entries(
                                self.tcx,
                                ty_name@,
                                all.take(i + 1),
                            ));
                        }
                    },
                    Err(e) => {
                        proof {
                            lemma_impl_failed(self.tcx, all, i + 1);
                        }
                        return Err(e);
                    },
                }
            }
            i += 1;
        }
        proof {
            assert(all.take(i as int) == all);
        }
        let dtor_name = match ty {
            TypeDef::Opaque(opaque) => Some(opaque.dtor_abi_name.clone()),
            _ => None,
        };
        let dtor_method_name = match &dtor_name {
            Some(d) => to_lowercase(d.as_str()),
            None => String::new(),
        };
        impl_header.decl_include = Some(self.decl_header_path.clone());
        // Lowering a receiver of the definition's own type makes the file
        // include itself: such includes are taken out here, once, in place
        // of never putting them in.
        impl_header.includes.remove(self.impl_header_path.as_str());
        impl_header.includes.remove(self.decl_header_path.as_str());
        Ok(
            (
                impl_header,
                ImplTemplate { ty_name, methods, cb_structs_and_defs, dtor_name, dtor_method_name },
            ),
        )
    }

    /// Registers the use of the named definition `id`, shown as `name`:
    /// a diagnostic if it is disabled, and its declaration as an include.
    fn note_use(&self, id: SymbolId, name: &str, header: &mut Header, errors: &mut ErrorStore)
        requires
            self.wf(),
            old(header).wf(),
            self.tcx.symbol_name(id) == Some(name@),
        ensures
            final(header).wf(),
            final(header).same_text_as(old(header)),
            final(header).includes@ == old(header).includes@.insert(
                decl_header_path(name@),
            ),
            final(errors).current() == old(errors).current(),
            final(errors).entries() == old(errors).entries() + ErrorStore::under(
                old(errors).current(),
                if self.tcx.symbol_disabled(id) {
                    seq![disabled_message(id, name@)]
                } else {
                    Seq::empty()
                },
            ),
    {
        let disabled = match id {
            SymbolId::TypeId(t) => match self.tcx.resolve_type(t) {
                Some(d) => d.disabled(),
                None => false,
            },
            SymbolId::TraitId(t) => match self.tcx.resolve_trait(t) {
                Some(d) => d.disable,
                None => false,
            },
            SymbolId::FunctionId(_) => false,
        };
        let ghost cx = errors.current();
        let ghost before = errors.entries();
        if disabled {
            let message = match id {
                SymbolId::TraitId(_) => concat2("Found usage of disabled trait ", name),
                _ => concat2("Found usage of disabled type ", name),
            };
            let ghost m = message@;
            errors.push_error(message);
            proof {
                assert(ErrorStore::under(cx, seq![m]) =~= seq![(cx, m)]);
                assert(before.push((cx, m)) =~= before + seq![(cx, m)]);
            }
        } else {
            proof {
                assert(ErrorStore::under(cx, Seq::<Seq<char>>::empty()) =~= Seq::empty());
                assert(before + Seq::empty() =~= before);
            }
        }
        header.includes.insert(self.formatter.fmt_decl_header_path(id));
    }

    /// The spelling of `ty` where a type is referred to, for use in
    /// signatures and fields. The declaration of a definition that `ty`
    /// refers to becomes an include of `header`, and the use of a disabled
    /// definition is reported to `errors`; both happen even where an option
    /// around the reference is then refused.
    ///
    /// Where this cannot be done, the reason is returned: the first one met,
    /// in the order in which the parts are lowered.
    pub fn try_gen_ty_name(&self, ty: &Type, header: &mut Header, errors: &mut ErrorStore) -> (r: Result<
        String,
        LoweringError,
    >)
        requires
            self.wf(),
            old(header).wf(),
        ensures
            is_result(r, ty_name(self.tcx, *ty)),
            lowered(
                *old(header),
                *final(header),
                *old(errors),
                *final(errors),
                ty_includes(self.tcx, *ty),
                ty_diagnostics(self.tcx, *ty),
            ),
        decreases *ty,
    {
        proof {
            assert(old(header).includes@.union(Set::empty()) =~= old(header).includes@);
            assert(ErrorStore::under(old(errors).current(), Seq::<Seq<char>>::empty()) =~= Seq::empty());
            assert(old(errors).entries() + Seq::empty() =~= old(errors).entries());
        }
        match ty {
            Type::Primitive(prim) => match self.formatter.check_primitive(*prim) {
                Ok(_) => Ok(self.formatter.fmt_primitive_as_mojo(*prim).to_owned()),
                Err(e) => Err(e),
            },
            Type::Opaque(op) => {
                let id = SymbolId::TypeId(TypeId::Opaque(op.tcx_id));
                let name = match self.formatter.check_symbol(id) {
                    Ok(_) => self.formatter.fmt_type_name_maybe_namespaced(id),
                    Err(e) => { return Err(e); },
                };
                // An owned value is released through its pointer, so that
                // pointer is never a constant one.
                let mutability = match op.owner.mutability() {
                    Some(m) => m,
                    None => Mutability::Mutable,
                };
                let ret = self.formatter.fmt_ptr(name.as_str(), mutability);
                self.note_use(id, name.as_str(), header, errors);
                proof {
                    assert(old(header).includes@.union(ty_includes(self.tcx, *ty))
                        =~= header.includes@);
                }
                Ok(ret)
            },
            Type::Struct(st) => {
                let id = SymbolId::TypeId(st.id());
                let name = match self.formatter.check_symbol(id) {
                    Ok(_) => self.formatter.fmt_type_name_maybe_namespaced(id),
                    Err(e) => { return Err(e); },
                };
                self.note_use(id, name.as_str(), header, errors);
                proof {
                    assert(old(header).includes@.union(ty_includes(self.tcx, *ty))
                        =~= header.includes@);
                }
                Ok(name)
            },
            Type::Enum(i) => {
                let id = SymbolId::TypeId(TypeId::Enum(*i));
                let name = match self.formatter.check_symbol(id) {
                    Ok(_) => self.formatter.fmt_type_name_maybe_namespaced(id),
                    Err(e) => { return Err(e); },
                };
                self.note_use(id, name.as_str(), header, errors);
                proof {
                    assert(old(header).includes@.union(ty_includes(self.tcx, *ty))
                        =~= header.includes@);
                }
                Ok(name)
            },
            Type::Slice(s) => match s {
                Slice::Primitive(borrow, prim) => match self.formatter.check_primitive(*prim) {
                    Ok(_) => Ok(self.formatter.fmt_primitive_slice_name(*borrow, *prim)),
                    Err(e) => Err(e),
                },
                Slice::Str(encoding) => Ok(self.formatter.fmt_str_view_name(*encoding)),
                Slice::Strs(encoding) => Ok(self.formatter.fmt_strs_view_name(*encoding)),
            },
            Type::DiplomatOption(s) => {
                let inner = match self.try_gen_ty_name(s, header, errors) {
                    Ok(inner) => inner,
                    Err(e) => { return Err(e); },
                };
                match self.formatter.check_optional(s) {
                    Ok(_) => Ok(self.formatter.fmt_optional_type_name(s, inner.as_str())),
                    Err(e) => Err(e),
                }
            },
            Type::ImplTrait(t) => {
                let id = SymbolId::TraitId(*t);
                let name = match self.formatter.check_symbol(id) {
                    Ok(_) => self.formatter.fmt_type_name_maybe_namespaced(id),
                    Err(e) => { return Err(e); },
                };
                self.note_use(id, name.as_str(), header, errors);
                proof {
                    assert(old(header).includes@.union(ty_includes(self.tcx, *ty))
                        =~= header.includes@);
                }
                Ok(name)
            },
            Type::Callback(_) => Err(LoweringError::CallbackOutsideArgument),
        }
    }

    /// The declaration of the parameter or field `ident` of type `ty`: its
    /// type and the name it is bound to. A callback is declared as a
    /// wrapper, which is added to `cb_structs_and_defs`; it needs the ABI
    /// name of the method it is an argument of.
    ///
    /// Where this cannot be done, the reason is returned: the first one met,
    /// in the order in which the parts are lowered.
    pub fn try_gen_ty_decl(
        &self,
        ty: &Type,
        ident: &str,
        header: &mut Header,
        errors: &mut ErrorStore,
        method_abi_name: Option<&str>,
        cb_structs_and_defs: &mut Vec<CallbackAndStructDef>,
    ) -> (r: Result<(String, String), LoweringError>)
        requires
            self.wf(),
            old(header).wf(),
        ensures
            is_decl(r, ty_decl(self.tcx, *ty, ident@, opt_view(method_abi_name))),
            lowered_if(
                r is Ok,
                *old(header),
                *final(header),
                *old(errors),
                *final(errors),
                ty_decl_includes(self.tcx, *ty),
                ty_decl_diagnostics(self.tcx, *ty),
            ),
            r is Ok ==> wrapper_views(final(cb_structs_and_defs)@) == wrapper_views(
                old(cb_structs_and_defs)@,
            ) + ty_decl_wrappers(self.tcx, *ty, ident@, opt_view(method_abi_name)),
    {
        let ghost h0 = *header;
        let ghost e0 = *errors;
        let param_name = self.formatter.fmt_param_name(ident);
        proof {
            assert(wrapper_views(cb_structs_and_defs@) + Seq::<WrapperView>::empty()
                =~= wrapper_views(cb_structs_and_defs@));
        }
        match ty {
            Type::Callback(some_cb) => {
                let abi = match method_abi_name {
                    Some(abi) => abi,
                    None => { return Err(LoweringError::CallbackOutsideArgument); },
                };
                let mut cb_wrapper_type = concat2("DiplomatCallback_", abi);
                cb_wrapper_type.append("_");
                cb_wrapper_type.append(ident);
                // Lowering the signature also registers what it depends on.
                let wrapper = match self.try_gen_cb_param_wrapper_struct(
                    cb_wrapper_type.as_str(),
                    &some_cb.params,
                    &some_cb.output,
                    header,
                    errors,
                ) {
                    Ok(w) => w,
                    Err(e) => { return Err(e); },
                };
                let ghost before = wrapper_views(cb_structs_and_defs@);
                let ghost w = wrapper@;
                cb_structs_and_defs.push(wrapper);
                proof {
                    assert(wrapper_views(cb_structs_and_defs@) =~= before + seq![w]);
                }
                Ok((cb_wrapper_type, concat2(param_name.as_str(), "_cb_wrap")))
            },
            Type::ImplTrait(t) => {
                let trt_name = match self.try_gen_ty_name(ty, header, errors) {
                    Ok(name) => name,
                    Err(e) => { return Err(e); },
                };
                let ghost h1 = *header;
                let ghost e1 = *errors;
                let disabled = match self.tcx.resolve_trait(*t) {
                    Some(d) => d.disable,
                    None => false,
                };
                if disabled {
                    let message = concat2("Found usage of disabled trait ", trt_name.as_str());
                    let ghost m = message@;
                    errors.push_error(message);
                    proof {
                        let cx = e1.current();
                        assert(ErrorStore::under(cx, seq![m]) =~= seq![(cx, m)]);
                        assert(e1.entries().push((cx, m)) =~= e1.entries() + seq![(cx, m)]);
                        assert(h1.includes@.union(Set::empty()) =~= h1.includes@);
                    }
                } else {
                    proof {
                        lemma_lowered_nothing(h1, e1);
                    }
                }
                proof {
                    lemma_lowered_then(
                        h0,
                        h1,
                        *header,
                        e0,
                        e1,
                        *errors,
                        ty_includes(self.tcx, *ty),
                        ty_diagnostics(self.tcx, *ty),
                        Set::empty(),
                        ty_diagnostics(self.tcx, *ty),
                    );
                    assert(ty_includes(self.tcx, *ty).union(Set::empty()) =~= ty_includes(
                        self.tcx,
                        *ty,
                    ));
                }
                Ok(
                    (
                        concat2("DiplomatTraitStruct_", trt_name.as_str()),
                        concat2(param_name.as_str(), "_trait_wrap"),
                    ),
                )
            },
            _ => {
                match self.try_gen_ty_name(ty, header, errors) {
                    Ok(name) => Ok((name, param_name)),
                    Err(e) => Err(e),
                }
            },
        }
    }

    /// The two renderings of a list of declarations: `name: type` and the
    /// bare names, each separated by commas.
    fn render_params(param_decls: &Vec<(String, String)>) -> (r: (String, String))
        ensures
            r.0@ == typed_params(decl_views(param_decls@)),
            r.1@ == bare_params(decl_views(param_decls@)),
    {
        let ghost decls = decl_views(param_decls@);
        let ghost typed_spec = decls.map_values(|d: DeclView| d.1 + ": "@ + d.0);
        let ghost bare_spec = decls.map_values(|d: DeclView| d.1);
        let mut typed: Vec<String> = Vec::new();
        let mut bare: Vec<String> = Vec::new();
        let mut i: usize = 0;
        while i < param_decls.len()
            invariant
                i <= param_decls@.len(),
                decls == decl_views(param_decls@),
                typed_spec == decls.map_values(|d: DeclView| d.1 + ": "@ + d.0),
                bare_spec == decls.map_values(|d: DeclView| d.1),
                views(typed@) == typed_spec.take(i as int),
                views(bare@) == bare_spec.take(i as int),
            decreases param_decls.len() - i,
        {
            let decl = &param_decls[i];
            let ghost typed_before = views(typed@);
            let ghost bare_before = views(bare@);
            let t = concat3(decl.1.as_str(), ": ", decl.0.as_str());
            let b = decl.1.clone();
            typed.push(t);
            bare.push(b);
            proof {
                assert(decls[i as int] == (decl.0@, decl.1@));
                assert(views(typed@) =~= typed_before.push(t@));
                assert(views(bare@) =~= bare_before.push(b@));
                assert(typed_spec.take(i + 1) =~= typed_spec.take(i as int).push(typed_spec[i as int]));
                assert(bare_spec.take(i + 1) =~= bare_spec.take(i as int).push(bare_spec[i as int]));
            }
            i += 1;
        }
        proof {
            assert(typed_spec.take(i as int) == typed_spec);
            assert(bare_spec.take(i as int) == bare_spec);
        }
        (join(&typed, ", "), join(&bare, ", "))
    }

    /// Lowers a method: declares the receiver and the parameters, spells
    /// the return type, and renders the parameter list with and without
    /// types. A method that writes to a sink gets the sink as one more
    /// parameter. The wrappers of its callback parameters come with it.
    ///
    /// Where this cannot be done, the reason is returned: the first one met,
    /// in the order in which the parts are lowered.
    pub fn try_gen_method(&self, method: &Method, header: &mut Header, errors: &mut ErrorStore) -> (r:
        Result<(MethodTemplate, Vec<CallbackAndStructDef>), LoweringError>)
        requires
            self.wf(),
            old(header).wf(),
        ensures
            match r {
                Ok(v) => method_template(self.tcx, *method) == Ok::<MethodView, LoweringError>(v.0@)
                    && wrapper_views(v.1@) == method_wrappers(self.tcx, *method),
                Err(e) => method_template(self.tcx, *method) == Err::<MethodView, LoweringError>(e),
            },
            lowered_if(
                r is Ok,
                *old(header),
                *final(header),
                *old(errors),
                *final(errors),
                method_includes(self.tcx, *method),
                method_diagnostics(self.tcx, *method),
            ),
    {
        let ghost h0 = *header;
        let ghost e0 = *errors;
        let abi_name = method.abi_name.as_str();
        let ghost abi = Some(abi_name@);
        let mut param_decls: Vec<(String, String)> = Vec::new();
        let mut cb_structs_and_defs: Vec<CallbackAndStructDef> = Vec::new();
        let ghost recv_incl = match method.param_self {
            Some(s) => ty_decl_includes(self.tcx, s.spec_to_type()),
            None => Set::empty(),
        };
        let ghost recv_diag = match method.param_self {
            Some(s) => ty_decl_diagnostics(self.tcx, s.spec_to_type()),
            None => Seq::empty(),
        };
        proof {
            assert(wrapper_views(cb_structs_and_defs@) =~= Seq::<WrapperView>::empty());
            assert(decl_views(param_decls@) =~= Seq::<DeclView>::empty());
        }
        match method.param_self {
            Some(self_ty) => {
                let self_ty = self_ty.to_type();
                match self.try_gen_ty_decl(
                    &self_ty,
                    "self",
                    header,
                    errors,
                    Some(abi_name),
                    &mut cb_structs_and_defs,
                ) {
                    Ok(decl) => {
                        let ghost d = (decl.0@, decl.1@);
                        param_decls.push(decl);
                        proof {
                            assert(decl_views(param_decls@) =~= seq![d]);
                            assert(wrapper_views(cb_structs_and_defs@) =~= Seq::<
                                WrapperView,
                            >::empty());
                        }
                    },
                    Err(e) => { return Err(e); },
                }
            },
            None => {
                proof {
                    lemma_lowered_nothing(h0, e0);
                }
            },
        }
        let ghost receiver = decl_views(param_decls@);
        let ghost results = param_decl_results(self.tcx, *method);
        let ghost incl = method.params@.map_values(|p: Param| ty_decl_includes(self.tcx, p.ty));
        let ghost diag = method.params@.map_values(|p: Param| ty_decl_diagnostics(self.tcx, p.ty));
        let ghost wrap = method.params@.map_values(
            |p: Param| ty_decl_wrappers(self.tcx, p.ty, p.name@, Some(method.abi_name@)),
        );
        proof {
            assert(recv_incl.union(Set::empty()) =~= recv_incl);
            assert(recv_diag + Seq::<Seq<char>>::empty() =~= recv_diag);
            assert(receiver + Seq::<DeclView>::empty() =~= receiver);
        }
        let mut i: usize = 0;
        while i < method.params.len()
            invariant
                self.wf(),
                i <= method.params@.len(),
                h0 == *old(header),
                e0 == *old(errors),
                abi_name@ == method.abi_name@,
                receiver_decl(self.tcx, *method) == Ok::<Seq<DeclView>, LoweringError>(receiver),
                results == param_decl_results(self.tcx, *method),
                incl == method.params@.map_values(|p: Param| ty_decl_includes(self.tcx, p.ty)),
                diag == method.params@.map_values(|p: Param| ty_decl_diagnostics(self.tcx, p.ty)),
                wrap == method.params@.map_values(
                    |p: Param| ty_decl_wrappers(self.tcx, p.ty, p.name@, Some(method.abi_name@)),
                ),
                collect(results.take(i as int)) is Ok,
                decl_views(param_decls@) == receiver + collect(results.take(i as int))->Ok_0,
                wrapper_views(cb_structs_and_defs@) == concat_all(wrap.take(i as int)),
                lowered(
                    h0,
                    *header,
                    e0,
                    *errors,
                    recv_incl.union(union_all(incl.take(i as int))),
                    recv_diag + concat_all(diag.take(i as int)),
                ),
            decreases method.params.len() - i,
        {
            let ghost h1 = *header;
            let ghost e1 = *errors;
            let ghost before = decl_views(param_decls@);
            proof {
                lemma_collect_step(results, i as int);
                lemma_union_all_step(incl, i as int);
                lemma_concat_all_step(diag, i as int);
                lemma_concat_all_step(wrap, i as int);
            }
            let param = &method.params[i];
            match self.try_gen_ty_decl(
                &param.ty,
                param.name.as_str(),
                header,
                errors,
                Some(abi_name),
                &mut cb_structs_and_defs,
            ) {
                Ok(decl) => {
                    let ghost d = (decl.0@, decl.1@);
                    param_decls.push(decl);
                    proof {
                        lemma_lowered_then(
                            h0,
                            h1,
                            *header,
                            e0,
                            e1,
                            *errors,
                            recv_incl.union(union_all(incl.take(i as int))),
                            recv_diag + concat_all(diag.take(i as int)),
                            incl[i as int],
                            diag[i as int],
                        );
                        assert(recv_incl.union(union_all(incl.take(i as int))).union(incl[i as int])
                            =~= recv_incl.union(union_all(incl.take(i + 1))));
                        assert((recv_diag + concat_all(diag.take(i as int))) + diag[i as int]
                            =~= recv_diag + concat_all(diag.take(i + 1)));
                        assert(decl_views(param_decls@) =~= before.push(d));
                        assert(decl_views(param_decls@) =~= receiver + collect(
                            results.take(i + 1),
                        )->Ok_0);
                    }
                },
                Err(e) => {
                    proof {
                        lemma_collect_failed(results, i + 1);
                    }
                    return Err(e);
                },
            }
            i += 1;
        }
        proof {
            assert(results.take(i as int) == results);
            assert(incl.take(i as int) == incl);
            assert(diag.take(i as int) == diag);
            assert(wrap.take(i as int) == wrap);
        }
        let ghost decls = decl_views(param_decls@);
        let ghost h1 = *header;
        let ghost e1 = *errors;
        let return_ty = match &method.output {
            ReturnType::Infallible(SuccessType::Unit) => {
                proof {
                    lemma_lowered_nothing(h1, e1);
                    assert(decls + Seq::<DeclView>::empty() =~= decls);
                }
                "None".to_owned()
            },
            ReturnType::Infallible(SuccessType::Write) => {
                let sink = concat3("UnsafePointer[", self.formatter.fmt_write_name().as_str(), "]");
                let decl = (sink, "write".to_owned());
                let ghost d = (decl.0@, decl.1@);
                param_decls.push(decl);
                proof {
                    lemma_lowered_nothing(h1, e1);
                    assert(decl_views(param_decls@) =~= decls + seq![d]);
                }
                "None".to_owned()
            },
            ReturnType::Infallible(SuccessType::OutType(o)) => {
                proof {
                    assert(decls + Seq::<DeclView>::empty() =~= decls);
                }
                match self.try_gen_ty_name(o, header, errors) {
                    Ok(name) => name,
                    Err(e) => { return Err(e); },
                }
            },
            ReturnType::Fallible(ok, err) => {
                // A result without an error type and an option are the same on the ABI.
                let err = match err {
                    Some(e) => Some(e),
                    None => None,
                };
                match self.gen_fallible_return(
                    abi_name,
                    ok,
                    err,
                    &mut param_decls,
                    header,
                    errors,
                ) {
                    Ok(name) => name,
                    Err(e) => { return Err(e); },
                }
            },
            ReturnType::Nullable(ok) => {
                match self.gen_fallible_return(
                    abi_name,
                    ok,
                    None,
                    &mut param_decls,
                    header,
                    errors,
                ) {
                    Ok(name) => name,
                    Err(e) => { return Err(e); },
                }
            },
        };
        proof {
            lemma_lowered_then(
                h0,
                h1,
                *header,
                e0,
                e1,
                *errors,
                recv_incl.union(union_all(incl)),
                recv_diag + concat_all(diag),
                return_includes(self.tcx, method.output),
                return_diagnostics(self.tcx, method.output),
            );
            assert(decl_views(param_decls@) == decls + write_sink(method.output));
        }
        let (params, param_names) = Self::render_params(&param_decls);
        let method_name = to_lowercase(abi_name);
        Ok(
            (
                MethodTemplate {
                    abi_name: abi_name.to_owned(),
                    method_name,
                    return_ty,
                    params,
                    param_names,
                },
                cb_structs_and_defs,
            ),
        )
    }

    /// The return type of a method that can fail or hand back nothing. A
    /// method that writes to a sink gets the sink as one more parameter.
    fn gen_fallible_return(
        &self,
        method_name: &str,
        ok: &SuccessType,
        err: Option<&Type>,
        param_decls: &mut Vec<(String, String)>,
        header: &mut Header,
        errors: &mut ErrorStore,
    ) -> (r: Result<String, LoweringError>)
        requires
            self.wf(),
            old(header).wf(),
        ensures
            is_result(r, result_ty_name(self.tcx, success_payload(*ok), opt_ty(err))),
            lowered_if(
                r is Ok,
                *old(header),
                *final(header),
                *old(errors),
                *final(errors),
                result_ty_includes(self.tcx, success_payload(*ok)),
                result_ty_diagnostics(self.tcx, success_payload(*ok)),
            ),
            decl_views(final(param_decls)@) == decl_views(old(param_decls)@) + (match *ok {
                SuccessType::Write => seq![("DiplomatWrite"@ + "*"@, "write"@)],
                _ => Seq::<DeclView>::empty(),
            }),
    {
        let ghost before = decl_views(param_decls@);
        let ok_ty = match ok {
            SuccessType::Write => {
                let decl = (
                    concat2(self.formatter.fmt_write_name().as_str(), "*"),
                    "write".to_owned(),
                );
                let ghost d = (decl.0@, decl.1@);
                param_decls.push(decl);
                proof {
                    assert(decl_views(param_decls@) =~= before + seq![d]);
                }
                None
            },
            SuccessType::Unit => {
                proof {
                    assert(before + Seq::<DeclView>::empty() =~= before);
                }
                None
            },
            SuccessType::OutType(o) => {
                proof {
                    assert(before + Seq::<DeclView>::empty() =~= before);
                }
                Some(o)
            },
        };
        self.try_gen_result_ty(method_name, ok_ty, err, header, errors)
    }

    /// An optional payload without the structs that have no fields.
    fn payload_of<'a>(&self, ty: Option<&'a Type>) -> (r: Option<&'a Type>)
        ensures
            opt_ty(r) == payload(self.tcx, opt_ty(ty)),
    {
        match ty {
            Some(t) => {
                let empty = match t {
                    Type::Struct(st) => match self.tcx.resolve_type(st.id()) {
                        Some(TypeDef::Struct(d)) => d.fields.len() == 0,
                        Some(TypeDef::OutStruct(d)) => d.fields.len() == 0,
                        _ => false,
                    },
                    _ => false,
                };
                if empty {
                    None
                } else {
                    Some(t)
                }
            },
            None => None,
        }
    }

    /// The name of the type that carries a fallible or nullable result of
    /// the method `fn_name`. A struct without fields counts as no payload.
    /// The success payload decides the name; it fails for a payload whose
    /// spelling has no tag.
    ///
    /// Where this cannot be done, the reason is returned: the first one met,
    /// in the order in which the parts are lowered.
    pub fn try_gen_result_ty(
        &self,
        fn_name: &str,
        ok_ty: Option<&Type>,
        err_ty: Option<&Type>,
        header: &mut Header,
        errors: &mut ErrorStore,
    ) -> (r: Result<String, LoweringError>)
        requires
            self.wf(),
            old(header).wf(),
        ensures
            is_result(r, result_ty_name(self.tcx, opt_ty(ok_ty), opt_ty(err_ty))),
            lowered_if(
                r is Ok,
                *old(header),
                *final(header),
                *old(errors),
                *final(errors),
                result_ty_includes(self.tcx, opt_ty(ok_ty)),
                result_ty_diagnostics(self.tcx, opt_ty(ok_ty)),
            ),
    {
        let ok_ty = self.payload_of(ok_ty);
        let _err_ty = self.payload_of(err_ty);
        let ok_name = match ok_ty {
            Some(ok) => match self.try_gen_ty_name(ok, header, errors) {
                Ok(name) => name,
                Err(e) => { return Err(e); },
            },
            None => {
                proof {
                    lemma_lowered_nothing(*header, *errors);
                }
                String::new()
            },
        };
        match result_tag_of(ok_name.as_str()) {
            Some(oi_name) => Ok(concat3("Option", oi_name, "Result")),
            None => Err(LoweringError::UnknownResultSpelling),
        }
    }

    /// The parameter list of the function pointer for a callback or a trait
    /// method: the context pointer, then each parameter's spelling.
    fn gen_cb_params_types(
        &self,
        params: &Vec<CallbackParam>,
        header: &mut Header,
        errors: &mut ErrorStore,
    ) -> (r: Result<String, LoweringError>)
        requires
            self.wf(),
            old(header).wf(),
        ensures
            is_result(r, callback_params_types(self.tcx, params@)),
            lowered_if(
                r is Ok,
                *old(header),
                *final(header),
                *old(errors),
                *final(errors),
                callback_params_includes(self.tcx, params@),
                callback_params_diagnostics(self.tcx, params@),
            ),
    {
        let ghost h0 = *header;
        let ghost e0 = *errors;
        let ghost results = callback_param_names(self.tcx, params@);
        let ghost incl = params@.map_values(|p: CallbackParam| ty_includes(self.tcx, p.ty));
        let ghost diag = params@.map_values(|p: CallbackParam| ty_diagnostics(self.tcx, p.ty));
        let mut names: Vec<String> = Vec::new();
        names.push("void*".to_owned());
        proof {
            lemma_lowered_nothing(h0, e0);
            assert(views(names@) =~= seq!["void*"@] + Seq::<Seq<char>>::empty());
        }
        let mut i: usize = 0;
        while i < params.len()
            invariant
                self.wf(),
                i <= params@.len(),
                h0 == *old(header),
                e0 == *old(errors),
                results == callback_param_names(self.tcx, params@),
                incl == params@.map_values(|p: CallbackParam| ty_includes(self.tcx, p.ty)),
                diag == params@.map_values(|p: CallbackParam| ty_diagnostics(self.tcx, p.ty)),
                collect(results.take(i as int)) is Ok,
                views(names@) == seq!["void*"@] + collect(results.take(i as int))->Ok_0,
                lowered(
                    h0,
                    *header,
                    e0,
                    *errors,
                    union_all(incl.take(i as int)),
                    concat_all(diag.take(i as int)),
                ),
            decreases params.len() - i,
        {
            let ghost h1 = *header;
            let ghost e1 = *errors;
            let ghost before = views(names@);
            proof {
                lemma_collect_step(results, i as int);
                lemma_union_all_step(incl, i as int);
                lemma_concat_all_step(diag, i as int);
            }
            match self.try_gen_ty_name(&params[i].ty, header, errors) {
                Ok(name) => {
                    names.push(name);
                    proof {
                        lemma_lowered_then(
                            h0,
                            h1,
                            *header,
                            e0,
                            e1,
                            *errors,
                            union_all(incl.take(i as int)),
                            concat_all(diag.take(i as int)),
                            incl[i as int],
                            diag[i as int],
                        );
                        assert(views(names@) =~= before.push(name@));
                        assert(views(names@) =~= seq!["void*"@] + collect(
                            results.take(i + 1),
                        )->Ok_0);
                    }
                },
                Err(e) => {
                    proof {
                        lemma_collect_failed(results, i + 1);
                    }
                    return Err(e);
                },
            }
            i += 1;
        }
        proof {
            assert(results.take(i as int) == results);
            assert(incl.take(i as int) == incl);
            assert(diag.take(i as int) == diag);
        }
        Ok(join(&names, ", "))
    }

    /// The wrapper for a callback argument: its name as given, the
    /// parameter list and the return type of its function pointer.
    ///
    /// Where this cannot be done, the reason is returned: the first one met,
    /// in the order in which the parts are lowered.
    pub fn try_gen_cb_param_wrapper_struct(
        &self,
        cb_wrapper_type: &str,
        params: &Vec<CallbackParam>,
        output_type: &Option<Box<Type>>,
        header: &mut Header,
        errors: &mut ErrorStore,
    ) -> (r: Result<CallbackAndStructDef, LoweringError>)
        requires
            self.wf(),
            old(header).wf(),
        ensures
            match r {
                Ok(w) => callback_wrapper(
                    self.tcx,
                    cb_wrapper_type@,
                    (Callback { params: *params, output: *output_type }),
                ) == Ok::<WrapperView, LoweringError>(w@),
                Err(e) => callback_wrapper(
                    self.tcx,
                    cb_wrapper_type@,
                    (Callback { params: *params, output: *output_type }),
                ) == Err::<WrapperView, LoweringError>(e),
            },
            lowered_if(
                r is Ok,
                *old(header),
                *final(header),
                *old(errors),
                *final(errors),
                callback_includes(
                    self.tcx,
                    (Callback { params: *params, output: *output_type }),
                ),
                callback_diagnostics(
                    self.tcx,
                    (Callback { params: *params, output: *output_type }),
                ),
            ),
    {
        let ghost h0 = *header;
        let ghost e0 = *errors;
        let return_type = match output_type {
            Some(ty) => match self.try_gen_ty_name(ty, header, errors) {
                Ok(name) => name,
                Err(e) => { return Err(e); },
            },
            None => {
                proof {
                    lemma_lowered_nothing(h0, e0);
                }
                "void".to_owned()
            },
        };
        let ghost h1 = *header;
        let ghost e1 = *errors;
        let params_types = match self.gen_cb_params_types(params, header, errors) {
            Ok(p) => p,
            Err(e) => { return Err(e); },
        };
        proof {
            let cb = Callback { params: *params, output: *output_type };
            lemma_lowered_then(
                h0,
                h1,
                *header,
                e0,
                e1,
                *errors,
                match cb.output {
                    Some(ty) => ty_includes(self.tcx, *ty),
                    None => Set::empty(),
                },
                match cb.output {
                    Some(ty) => ty_diagnostics(self.tcx, *ty),
                    None => Seq::empty(),
                },
                callback_params_includes(self.tcx, params@),
                callback_params_diagnostics(self.tcx, params@),
            );
        }
        Ok(CallbackAndStructDef { name: cb_wrapper_type.to_owned(), params_types, return_type })
    }
}

/// The same steps for inputs that can be lowered. What cannot be lowered is
/// a failure of whoever built the universe: it is left out here, and the
/// `try_` functions say beforehand whether an input is such.
impl<'cx, 'tcx> TyGenContext<'cx, 'tcx> {
    /// The declaration of an enum: a fresh file at the declaration path,
    /// and the flat names of the variants in declared order. The definition
    /// being generated has to be a type that the universe holds.
    pub fn gen_enum_def(&self, def: &EnumDef) -> (r: (Header, EnumTemplate))
        requires
            self.wf(),
            own_type_name(self.tcx, self.id) is Ok,
        ensures
            r.0.is_fresh(self.decl_header_path@),
            own_type_name(self.tcx, self.id) == Ok::<Seq<char>, LoweringError>(r.1.ty_name@),
            views(r.1.variants@) == enum_variants(r.1.ty_name@, *def),
    {
        match self.try_gen_enum_def(def) {
            Ok(v) => v,
            Err(_) => unreached(),
        }
    }

    /// The declaration of an opaque: a fresh file at the declaration path
    /// and the name. The definition being generated has to be a type that
    /// the universe holds.
    pub fn gen_opaque_def(&self, def: &OpaqueDef) -> (r: (Header, OpaqueTemplate))
        requires
            self.wf(),
            own_type_name(self.tcx, self.id) is Ok,
        ensures
            r.0.is_fresh(self.decl_header_path@),
            own_type_name(self.tcx, self.id) == Ok::<Seq<char>, LoweringError>(r.1.ty_name@),
    {
        match self.try_gen_opaque_def(def) {
            Ok(v) => v,
            Err(_) => unreached(),
        }
    }

    /// The declaration of a struct: its fields, each with its lowered
    /// type, in declared order, in a file at the declaration path whose
    /// includes are the declarations that the field types refer to. The
    /// definition being generated has to be a type that the universe holds,
    /// and every field has to have a declaration.
    pub fn gen_struct_def(&self, def: &StructDef, errors: &mut ErrorStore) -> (r: (
        Header,
        StructTemplate,
    ))
        requires
            self.wf(),
            own_type_name(self.tcx, self.id) is Ok,
            struct_fields(self.tcx, *def) is Ok,
        ensures
            own_type_name(self.tcx, self.id) == Ok::<Seq<char>, LoweringError>(r.1.ty_name@),
            struct_fields(self.tcx, *def) == Ok::<Seq<DeclView>, LoweringError>(
                decl_views(r.1.fields@),
            ),
            is_unit(r.0, self.decl_header_path@, None, struct_includes(self.tcx, *def)),
            reported(
                *old(errors),
                *final(errors),
                ErrorStore::under(old(errors).current(), struct_diagnostics(self.tcx, *def)),
            ),
    {
        match self.try_gen_struct_def(def, errors) {
            Ok(v) => v,
            Err(_) => unreached(),
        }
    }

    /// The declaration of a trait: one function pointer for each method,
    /// called `run_<method>_callback`, whose first parameter is a pointer
    /// to the caller's context, whether or not the method has a receiver.
    /// The definition being generated has to be a trait that the universe
    /// holds, and every method has to have a signature.
    pub fn gen_trait_def(&self, def: &TraitDef, errors: &mut ErrorStore) -> (r: (
        Header,
        TraitTemplate,
    ))
        requires
            self.wf(),
            own_trait_name(self.tcx, self.id) is Ok,
            trait_sigs(self.tcx, *def) is Ok,
        ensures
            own_trait_name(self.tcx, self.id) == Ok::<Seq<char>, LoweringError>(r.1.trt_name@),
            trait_sigs(self.tcx, *def) == Ok::<Seq<Seq<char>>, LoweringError>(
                views(r.1.method_sigs@),
            ),
            is_unit(r.0, self.decl_header_path@, None, trait_includes(self.tcx, *def)),
            reported(
                *old(errors),
                *final(errors),
                ErrorStore::under(old(errors).current(), trait_diagnostics(self.tcx, *def)),
            ),
    {
        match self.try_gen_trait_def(def, errors) {
            Ok(v) => v,
            Err(_) => unreached(),
        }
    }

    /// The file of methods of the definition whose methods and destructor
    /// are those of `ty`. The definition being generated has to be a type
    /// that the universe holds, and every method that is not disabled has to
    /// have a lowering.
    ///
    /// Disabled methods are left out. The others are lowered in declared
    /// order, each under a context of its own. The file names its
    /// declaration as its companion and never includes either of its own
    /// two files.
    pub fn gen_impl(&self, ty: TypeDef<'tcx>, errors: &mut ErrorStore) -> (r: (Header, ImplTemplate))
        requires
            self.wf(),
            impl_template(self.tcx, self.id, ty) is Ok,
        ensures
            impl_template(self.tcx, self.id, ty) == Ok::<ImplView, LoweringError>(r.1@),
            is_unit(
                r.0,
                self.impl_header_path@,
                Some(self.decl_header_path@),
                impl_includes(self.tcx, ty.spec_methods()).remove(self.impl_header_path@).remove(
                    self.decl_header_path@,
                ),
            ),
            !r.0.includes@.contains(self.impl_header_path@),
            !r.0.includes@.contains(self.decl_header_path@),
            reported(
                *old(errors),
                *final(errors),
                impl_entries(self.tcx, r.1.ty_name@, ty.spec_methods()),
            ),
    {
        match self.try_gen_impl(ty, errors) {
            Ok(v) => v,
            Err(_) => unreached(),
        }
    }

    /// The spelling of `ty` where a type is referred to, for use in
    /// signatures and fields. The declaration of a definition that `ty`
    /// refers to becomes an include of `header`, and the use of a disabled
    /// definition is reported to `errors`. A type without such a spelling is
    /// left out: a callback, a 128-bit integer, an option around anything
    /// but a scalar, a struct or an enum, and a reference to a definition
    /// that the universe does not hold.
    pub fn gen_ty_name(&self, ty: &Type, header: &mut Header, errors: &mut ErrorStore) -> (r: String)
        requires
            self.wf(),
            old(header).wf(),
            ty_name(self.tcx, *ty) is Ok,
        ensures
            ty_name(self.tcx, *ty) == Ok::<Seq<char>, LoweringError>(r@),
            lowered(
                *old(header),
                *final(header),
                *old(errors),
                *final(errors),
                ty_includes(self.tcx, *ty),
                ty_diagnostics(self.tcx, *ty),
            ),
    {
        match self.try_gen_ty_name(ty, header, errors) {
            Ok(name) => name,
            Err(_) => unreached(),
        }
    }

    /// The declaration of the parameter or field `ident` of type `ty`: its
    /// type and the name it is bound to. A callback is declared as a
    /// wrapper, which is added to `cb_structs_and_defs`. What has no
    /// declaration is left out: a callback outside a method, and whatever
    /// has no spelling.
    pub fn gen_ty_decl(
        &self,
        ty: &Type,
        ident: &str,
        header: &mut Header,
        errors: &mut ErrorStore,
        method_abi_name: Option<&str>,
        cb_structs_and_defs: &mut Vec<CallbackAndStructDef>,
    ) -> (r: (String, String))
        requires
            self.wf(),
            old(header).wf(),
            ty_decl(self.tcx, *ty, ident@, opt_view(method_abi_name)) is Ok,
        ensures
            ty_decl(self.tcx, *ty, ident@, opt_view(method_abi_name)) == Ok::<
                DeclView,
                LoweringError,
            >((r.0@, r.1@)),
            lowered(
                *old(header),
                *final(header),
                *old(errors),
                *final(errors),
                ty_decl_includes(self.tcx, *ty),
                ty_decl_diagnostics(self.tcx, *ty),
            ),
            wrapper_views(final(cb_structs_and_defs)@) == wrapper_views(old(cb_structs_and_defs)@)
                + ty_decl_wrappers(self.tcx, *ty, ident@, opt_view(method_abi_name)),
    {
        match self.try_gen_ty_decl(ty, ident, header, errors, method_abi_name, cb_structs_and_defs) {
            Ok(decl) => decl,
            Err(_) => unreached(),
        }
    }

    /// Lowers a method: declares the receiver and the parameters, spells
    /// the return type, and renders the parameter list with and without
    /// types. A method that writes to a sink gets the sink as one more
    /// parameter. The wrappers of its callback parameters come with it. A
    /// method with an input or a return type that cannot be lowered is left
    /// out.
    pub fn gen_method(&self, method: &Method, header: &mut Header, errors: &mut ErrorStore) -> (r: (
        MethodTemplate,
        Vec<CallbackAndStructDef>,
    ))
        requires
            self.wf(),
            old(header).wf(),
            method_template(self.tcx, *method) is Ok,
        ensures
            method_template(self.tcx, *method) == Ok::<MethodView, LoweringError>(r.0@),
            wrapper_views(r.1@) == method_wrappers(self.tcx, *method),
            lowered(
                *old(header),
                *final(header),
                *old(errors),
                *final(errors),
                method_includes(self.tcx, *method),
                method_diagnostics(self.tcx, *method),
            ),
    {
        match self.try_gen_method(method, header, errors) {
            Ok(v) => v,
            Err(_) => unreached(),
        }
    }

    /// The name of the type that carries a fallible or nullable result of
    /// the method `fn_name`. A struct without fields counts as no payload.
    /// The success payload decides the name; a payload whose spelling has no
    /// tag is left out, and so is a result without a success payload.
    pub fn gen_result_ty(
        &self,
        fn_name: &str,
        ok_ty: Option<&Type>,
        err_ty: Option<&Type>,
        header: &mut Header,
        errors: &mut ErrorStore,
    ) -> (r: String)
        requires
            self.wf(),
            old(header).wf(),
            result_ty_name(self.tcx, opt_ty(ok_ty), opt_ty(err_ty)) is Ok,
        ensures
            result_ty_name(self.tcx, opt_ty(ok_ty), opt_ty(err_ty)) == Ok::<
                Seq<char>,
                LoweringError,
            >(r@),
            lowered(
                *old(header),
                *final(header),
                *old(errors),
                *final(errors),
                result_ty_includes(self.tcx, opt_ty(ok_ty)),
                result_ty_diagnostics(self.tcx, opt_ty(ok_ty)),
            ),
    {
        match self.try_gen_result_ty(fn_name, ok_ty, err_ty, header, errors) {
            Ok(name) => name,
            Err(_) => unreached(),
        }
    }

    /// The wrapper for a callback argument: its name as given, the
    /// parameter list and the return type of its function pointer. A
    /// callback with a parameter or a return type without a spelling is left
    /// out.
    pub fn gen_cb_param_wrapper_struct(
        &self,
        cb_wrapper_type: &str,
        params: &Vec<CallbackParam>,
        output_type: &Option<Box<Type>>,
        header: &mut Header,
        errors: &mut ErrorStore,
    ) -> (r: CallbackAndStructDef)
        requires
            self.wf(),
            old(header).wf(),
            callback_wrapper(
                self.tcx,
                cb_wrapper_type@,
                (Callback { params: *params, output: *output_type }),
            ) is Ok,
        ensures
            callback_wrapper(
                self.tcx,
                cb_wrapper_type@,
                (Callback { params: *params, output: *output_type }),
            ) == Ok::<WrapperView, LoweringError>(r@),
            lowered(
                *old(header),
                *final(header),
                *old(errors),
                *final(errors),
                callback_includes(
                    self.tcx,
                    (Callback { params: *params, output: *output_type }),
                ),
                callback_diagnostics(
                    self.tcx,
                    (Callback { params: *params, output: *output_type }),
                ),
            ),
    {
        match self.try_gen_cb_param_wrapper_struct(
            cb_wrapper_type,
            params,
            output_type,
            header,
            errors,
        ) {
            Ok(w) => w,
            Err(_) => unreached(),
        }
    }
}

} // verus!
