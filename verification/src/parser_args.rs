//! Reading the arguments and the return type of a VMOD function.
use vstd::prelude::*;
use crate::errors::{error, error_string, Errors, ProcResult, DiagV};
use crate::model::{FuncType, ParamType, ParamKind, ParamInfo, ParamTy, ParamTypeInfo, OutputTy,
    output_ty_wf, is_vcl_type_name, spec_must_be_optional};
use crate::types::{Diag, CALL_SITE, spec_type_text_parses, type_text_parses, deref_opt, Ty, TyKind, GenericArg, Attr, AttrMeta, NestedMeta, LitValue, SpanId,
    spec_simple_ident, spec_one_gen_arg, spec_one_gen_type, spec_ref_ty, spec_ref_mut_ty,
    spec_slice_ty, spec_remove_attr, as_simple_ty, is_simple_ty, as_one_gen_arg, as_option_type,
    as_box_type, as_ref_ty, as_ref_mut_ty, as_slice_ty, remove_attr, attr_is, spec_find_attr, lemma_find_attr};
use crate::text::{cat, str_eq, chars_of};
use crate::json::{json_quote, spec_json_quote, json_number_text, spec_json_reread};
use crate::docs::{parse_doc_str, spec_doc_str, parse_and_rm_doc, spec_remove_all_attrs};

verus! {

/// A typed function argument: `name: Type`, with its attributes.
#[derive(Debug)]
pub struct PatType {
    /// The argument's name, when the pattern is a plain identifier
    pub pat_ident: Option<String>,
    pub ty: Ty,
    pub attrs: Vec<Attr>,
    pub span: SpanId,
}

/// A `self` argument.
#[derive(Debug)]
pub struct Receiver {
    /// `&self` or `&mut self`, rather than `self`
    pub reference: bool,
    pub mutable: bool,
    pub attrs: Vec<Attr>,
    pub span: SpanId,
}

/// A function argument.
#[derive(Debug)]
pub enum FnArg {
    Receiver(Receiver),
    Typed(PatType),
}

/// Parser state for a function parser. This is not part of the model, but helps with error
/// detection.
#[derive(Debug, Clone, Copy, PartialEq, Eq, Structural)]
pub struct FuncStatus {
    pub func_type: FuncType,
    pub has_ctx_or_ws: bool,
    pub has_shared_per_task: bool,
    pub has_shared_per_vcl: bool,
    pub has_event: bool,
    pub has_vcl_name: bool,
    pub has_fetch_filters: bool,
    pub has_delivery_filters: bool,
}

impl FuncStatus {
    pub fn new(func_type: FuncType) -> (r: Self)
        ensures
            r == spec_new_status(func_type),
    {
        FuncStatus {
            func_type,
            has_ctx_or_ws: false,
            has_shared_per_task: false,
            has_shared_per_vcl: false,
            has_event: false,
            has_vcl_name: false,
            has_fetch_filters: false,
            has_delivery_filters: false,
        }
    }
}

pub open spec fn spec_new_status(func_type: FuncType) -> FuncStatus {
    FuncStatus {
        func_type,
        has_ctx_or_ws: false,
        has_shared_per_task: false,
        has_shared_per_vcl: false,
        has_event: false,
        has_vcl_name: false,
        has_fetch_filters: false,
        has_delivery_filters: false,
    }
}

// ---------------------------------------------------------------------------------------------
// Views of the model's argument types

/// The view of a [`ParamInfo`]: its kind, the JSON text of its default, its type.
pub type ParamInfoV = (ParamKind, Option<Seq<char>>, ParamTy);

pub open spec fn opt_str_view(o: Option<String>) -> Option<Seq<char>> {
    match o {
        Some(s) => Some(s@),
        None => None,
    }
}

pub open spec fn param_info_view(p: ParamInfo) -> ParamInfoV {
    (p.kind, opt_str_view(p.default), p.ty_info)
}

/// The view of a [`ParamType`].
pub enum ParamTypeV {
    Context { is_mut: bool },
    Workspace { is_mut: bool },
    SelfType,
    Event,
    VclName(ParamInfoV),
    SharedPerTask,
    SharedPerVclRef,
    SharedPerVclMut,
    FetchFilters,
    DeliveryFilters,
    Value(ParamInfoV),
}

pub open spec fn param_type_view(t: ParamType) -> ParamTypeV {
    match t {
        ParamType::Context { is_mut } => ParamTypeV::Context { is_mut },
        ParamType::Workspace { is_mut } => ParamTypeV::Workspace { is_mut },
        ParamType::SelfType => ParamTypeV::SelfType,
        ParamType::Event => ParamTypeV::Event,
        ParamType::VclName(p) => ParamTypeV::VclName(param_info_view(p)),
        ParamType::SharedPerTask => ParamTypeV::SharedPerTask,
        ParamType::SharedPerVclRef => ParamTypeV::SharedPerVclRef,
        ParamType::SharedPerVclMut => ParamTypeV::SharedPerVclMut,
        ParamType::FetchFilters => ParamTypeV::FetchFilters,
        ParamType::DeliveryFilters => ParamTypeV::DeliveryFilters,
        ParamType::Value(p) => ParamTypeV::Value(param_info_view(p)),
    }
}

pub open spec fn res_view<T, V>(r: ProcResult<T>, f: spec_fn(T) -> V) -> Result<V, Seq<DiagV>> {
    match r {
        Ok(v) => Ok(f(v)),
        Err(e) => Err(e@),
    }
}

// ---------------------------------------------------------------------------------------------
// Basic VCL types

/// The basic VCL type a Rust type stands for: `bool`, `Duration`, `f64`, `i64`, `Probe`,
/// `SocketAddr`, `CowProbe<'_>`, `&str` or `&CStr`.
pub open spec fn spec_param_ty(t: Ty) -> Option<ParamTy> {
    match spec_simple_ident(t) {
        Some(i) => if i == "bool"@ {
            Some(ParamTy::Bool)
        } else if i == "Duration"@ {
            Some(ParamTy::Duration)
        } else if i == "f64"@ {
            Some(ParamTy::F64)
        } else if i == "i64"@ {
            Some(ParamTy::I64)
        } else if i == "Probe"@ {
            Some(ParamTy::Probe)
        } else if i == "SocketAddr"@ {
            Some(ParamTy::SocketAddr)
        } else {
            spec_param_ty_rest(t)
        },
        None => spec_param_ty_rest(t),
    }
}

pub open spec fn spec_param_ty_rest(t: Ty) -> Option<ParamTy> {
    if spec_one_gen_arg(t, "CowProbe"@) matches Some(GenericArg::Lifetime) {
        Some(ParamTy::ProbeCow)
    } else {
        match spec_ref_ty(t) {
            Some(inner) => match spec_simple_ident(inner) {
                Some(i) => if i == "str"@ {
                    Some(ParamTy::Str)
                } else if i == "CStr"@ {
                    Some(ParamTy::CStr)
                } else {
                    None
                },
                None => None,
            },
            None => None,
        }
    }
}

/// A basic VCL type, possibly wrapped in `Option`: `(true, t)` for `Option<T>`.
pub open spec fn spec_param_ty_or_optional(t: Ty) -> Option<(bool, ParamTy)> {
    match spec_one_gen_type(t, "Option"@) {
        Some(inner) => match spec_param_ty(inner) {
            Some(p) => Some((true, p)),
            None => match spec_param_ty(t) {
                Some(p) => Some((false, p)),
                None => None,
            },
        },
        None => match spec_param_ty(t) {
            Some(p) => Some((false, p)),
            None => None,
        },
    }
}

impl ParamTy {
    /// Tries parsing regular VCL types as `i64`, `bool`, `Duration`, `&str`, ...
    pub fn try_parse(ty: &Ty) -> (r: Option<Self>)
        ensures
            r == spec_param_ty(*ty),
    {
        if let Some(ident) = as_simple_ty(ty) {
            let ident = ident.as_str();
            if str_eq(ident, "bool") {
                return Some(ParamTy::Bool);
            } else if str_eq(ident, "Duration") {
                return Some(ParamTy::Duration);
            } else if str_eq(ident, "f64") {
                return Some(ParamTy::F64);
            } else if str_eq(ident, "i64") {
                return Some(ParamTy::I64);
            } else if str_eq(ident, "Probe") {
                return Some(ParamTy::Probe);
            } else if str_eq(ident, "SocketAddr") {
                return Some(ParamTy::SocketAddr);
            }
        }
        if let Some(GenericArg::Lifetime) = as_one_gen_arg(ty, "CowProbe") {
            return Some(ParamTy::ProbeCow);
        }
        if let Some(inner) = as_ref_ty(ty) {
            if let Some(ident) = as_simple_ty(inner) {
                if str_eq(ident.as_str(), "str") {
                    return Some(ParamTy::Str);
                } else if str_eq(ident.as_str(), "CStr") {
                    return Some(ParamTy::CStr);
                }
            }
        }
        None
    }

    /// Tries parsing supported VCL types like `i64`, `Probe`, `Duration`, or Option-wrapped like
    /// `Option<&str>`.
    pub fn try_parse_or_optional(ty: &Ty) -> (r: Option<(bool, Self)>)
        ensures
            r == spec_param_ty_or_optional(*ty),
    {
        if let Some(inner) = as_option_type(ty) {
            if let Some(p) = Self::try_parse(inner) {
                return Some((true, p));
            }
        }
        match Self::try_parse(ty) {
            Some(p) => Some((false, p)),
            None => None,
        }
    }
}

// ---------------------------------------------------------------------------------------------
// Return types

/// The view of an [`OutputTy`].
pub enum OutputTyV {
    BackendHandle,
    Default,
    SelfType,
    ParamType(ParamTy),
    String,
    Bytes,
    VclType(Seq<char>),
}

pub open spec fn output_ty_view(t: OutputTy) -> OutputTyV {
    match t {
        OutputTy::BackendHandle => OutputTyV::BackendHandle,
        OutputTy::Default => OutputTyV::Default,
        OutputTy::SelfType => OutputTyV::SelfType,
        OutputTy::ParamType(p) => OutputTyV::ParamType(p),
        OutputTy::String => OutputTyV::String,
        OutputTy::Bytes => OutputTyV::Bytes,
        OutputTy::VclType(n) => OutputTyV::VclType(n@),
    }
}

/// An identifier of only upper-case ASCII letters and underscores, starting with `VCL_`.
pub open spec fn spec_is_vcl_ident(s: Seq<char>) -> bool {
    is_vcl_type_name(s)
}

/// The return type a Rust type stands for.
pub open spec fn spec_output_ty(t: Ty) -> Option<OutputTyV> {
    match spec_param_ty(t) {
        Some(p) => Some(OutputTyV::ParamType(p)),
        None => match spec_simple_ident(t) {
            Some(i) => if i == "String"@ {
                Some(OutputTyV::String)
            } else if i == "Self"@ {
                Some(OutputTyV::SelfType)
            } else if spec_is_vcl_ident(i) {
                Some(OutputTyV::VclType(i))
            } else {
                spec_output_ty_rest(t)
            },
            None => spec_output_ty_rest(t),
        },
    }
}

pub open spec fn spec_output_ty_rest(t: Ty) -> Option<OutputTyV> {
    let by_option = match spec_one_gen_type(t, "Option"@) {
        Some(inner) => if spec_simple_ident(inner) == Some("String"@) {
            Some(OutputTyV::String)
        } else {
            match spec_ref_ty(inner) {
                Some(r) => match spec_slice_ty(r) {
                    Some(e) => if spec_simple_ident(e) == Some("u8"@) {
                        Some(OutputTyV::Bytes)
                    } else {
                        None
                    },
                    None => None,
                },
                None => None,
            }
        },
        None => None,
    };
    match by_option {
        Some(o) => Some(o),
        None => match t.kind {
            TyKind::Tuple { elems } => if elems@.len() == 0 { Some(OutputTyV::Default) } else { None },
            _ => None,
        },
    }
}

/// The return type of a function of kind `func_type`, or the diagnostic it gets.
pub open spec fn spec_output_parse(t: Ty, func_type: FuncType) -> Result<OutputTyV, Seq<DiagV>> {
    match spec_output_ty(t) {
        None => Err(seq![(t.span, "This content type is not supported"@)]),
        Some(r) => if func_type is Event && !(r is Default) {
            Err(seq![(t.span, "Event functions must not return a value, or return a Result<(), _>"@)])
        } else if !(func_type is Constructor) && r is SelfType {
            Err(seq![(t.span, "`Self` return type is only allowed in object constructors named `new`"@)])
        } else {
            Ok(r)
        },
    }
}

/// Whether `v` is a VCL type name: `VCL_` then only upper-case ASCII letters and underscores.
fn is_vcl_ident(v: &str) -> (r: bool)
    ensures
        r == spec_is_vcl_ident(v@),
{
    let cs = chars_of(v);
    if cs.len() < 4 {
        return false;
    }
    if !(cs[0] == 'V' && cs[1] == 'C' && cs[2] == 'L' && cs[3] == '_') {
        proof {
            reveal_strlit("VCL_");
            if cs@.take(4) == "VCL_"@ {
                assert(cs@.take(4)[0] == 'V');
                assert(cs@.take(4)[1] == 'C');
                assert(cs@.take(4)[2] == 'L');
                assert(cs@.take(4)[3] == '_');
            }
        }
        return false;
    }
    let mut i: usize = 0;
    while i < cs.len()
        invariant
            i <= cs.len(),
            cs@ == v@,
            forall|j: int| 0 <= j < i ==> (('A' <= #[trigger] cs@[j] && cs@[j] <= 'Z') || cs@[j] == '_'),
        decreases cs.len() - i,
    {
        if !(('A' <= cs[i] && cs[i] <= 'Z') || cs[i] == '_') {
            assert(!(('A' <= v@[i as int] && v@[i as int] <= 'Z') || v@[i as int] == '_'));
            assert(!is_vcl_type_name(v@));
            return false;
        }
        i = i + 1;
    }
    proof {
        reveal_strlit("VCL_");
        assert(cs@.take(4) =~= "VCL_"@);
    }
    true
}

impl OutputTy {
    /// The return type a Rust type stands for.
    fn try_parse(ty: &Ty) -> (r: Option<Self>)
        ensures
            match r {
                Some(o) => spec_output_ty(*ty) == Some(output_ty_view(o)) && output_ty_wf(o),
                None => spec_output_ty(*ty) is None,
            },
    {
        if let Some(p) = ParamTy::try_parse(ty) {
            return Some(OutputTy::ParamType(p));
        }
        if let Some(ident) = as_simple_ty(ty) {
            if str_eq(ident.as_str(), "String") {
                return Some(OutputTy::String);
            } else if str_eq(ident.as_str(), "Self") {
                return Some(OutputTy::SelfType);
            }
            if is_vcl_ident(ident.as_str()) {
                return Some(OutputTy::VclType(ident.clone()));
            }
        }
        if let Some(inner) = as_option_type(ty) {
            if is_simple_ty(inner, "String") {
                return Some(OutputTy::String);
            }
            if let Some(r) = as_ref_ty(inner) {
                if let Some(e) = as_slice_ty(r) {
                    if is_simple_ty(e, "u8") {
                        return Some(OutputTy::Bytes);
                    }
                }
            }
        }
        if let TyKind::Tuple { elems } = &ty.kind {
            if elems.len() == 0 {
                return Some(OutputTy::Default);
            }
        }
        None
    }

    /// The return type of a function of kind `func_type`.
    pub fn parse(ty: &Ty, func_type: FuncType) -> (r: ProcResult<Self>)
        ensures
            res_view(r, |o: OutputTy| output_ty_view(o)) == spec_output_parse(*ty, func_type),
            r matches Ok(o) ==> output_ty_wf(o),
    {
        let ret_ty = match Self::try_parse(ty) {
            Some(t) => t,
            None => return Err(error(ty.span, "This content type is not supported")),
        };
        if matches!(func_type, FuncType::Event) && !matches!(ret_ty, OutputTy::Default) {
            return Err(error(ty.span, "Event functions must not return a value, or return a Result<(), _>"));
        } else if !matches!(func_type, FuncType::Constructor) && matches!(ret_ty, OutputTy::SelfType) {
            return Err(error(ty.span, "`Self` return type is only allowed in object constructors named `new`"));
        }
        Ok(ret_ty)
    }
}

// ---------------------------------------------------------------------------------------------
// Shared types

/// The inner `T` of `&mut Option<Box<T>>`.
pub open spec fn spec_shared_mut_inner(t: Ty) -> Option<Ty> {
    match spec_ref_mut_ty(t) {
        Some(a) => match spec_one_gen_type(a, "Option"@) {
            Some(b) => spec_one_gen_type(b, "Box"@),
            None => None,
        },
        None => None,
    }
}

/// The inner `T` of `Option<&T>`.
pub open spec fn spec_shared_ref_inner(t: Ty) -> Option<Ty> {
    match spec_one_gen_type(t, "Option"@) {
        Some(a) => spec_ref_ty(a),
        None => None,
    }
}

/// The shared type store once the shared type `ty` (declared as `arg_ty`) is met: it keeps the
/// first shared type met, and every later one must be the same.
pub open spec fn spec_store_shared(
    store: Option<Seq<char>>,
    arg_ty: Ty,
    ty: Option<Ty>,
    is_mut: bool,
) -> Result<Option<Seq<char>>, Seq<DiagV>> {
    match ty {
        None => Err(seq![(arg_ty.span, if is_mut {
            "This params must be declared as `&mut Option<Box<...>>`"@
        } else {
            "This params must be declared as `Option<&...>`"@
        })]),
        Some(t) => match store {
            Some(prev) => if prev != t.text@ {
                Err(seq![(arg_ty.span, "Shared type must be the same everywhere. Another shared param used type `"@
                    + prev + "`."@)])
            } else {
                Ok(store)
            },
            None => if !spec_type_text_parses(t.text@) {
                Err(seq![(CALL_SITE, "Internal error, please report: unable to re-parse this from a string '"@
                    + t.text@ + "'"@)])
            } else {
                Ok(Some(t.text@))
            },
        },
    }
}

/// Save or check the shared type `ty`, declared as `arg_ty`, in `store`.
fn store_shared(store: &mut Option<String>, arg_ty: &Ty, ty: Option<&Ty>, is_mut: bool) -> (r: ProcResult<()>)
    ensures
        match spec_store_shared(opt_str_view(*old(store)), *arg_ty, deref_opt(ty), is_mut) {
            Ok(s) => r is Ok && opt_str_view(*final(store)) == s,
            Err(d) => (r matches Err(e) && e@ == d) && *final(store) == *old(store),
        },
{
    let ty = match ty {
        Some(t) => t,
        None => {
            if is_mut {
                return Err(error(arg_ty.span, "This params must be declared as `&mut Option<Box<...>>`"));
            } else {
                return Err(error(arg_ty.span, "This params must be declared as `Option<&...>`"));
            }
        },
    };
    match store {
        Some(prev) => {
            if !str_eq(prev.as_str(), ty.text.as_str()) {
                let a = cat("Shared type must be the same everywhere. Another shared param used type `", prev.as_str());
                let msg = cat(a.as_str(), "`.");
                return Err(error_string(arg_ty.span, msg));
            }
            Ok(())
        },
        None => {
            if !type_text_parses(ty.text.as_str()) {
                let a = cat("Internal error, please report: unable to re-parse this from a string '", ty.text.as_str());
                let msg = cat(a.as_str(), "'");
                return Err(error_string(CALL_SITE, msg));
            }
            *store = Some(ty.text.clone());
            Ok(())
        },
    }
}

/// Save or check a shared type declared as `&mut Option<Box<T>>`.
pub fn parse_shared_mut(store: &mut Option<String>, arg_ty: &Ty) -> (r: ProcResult<()>)
    ensures
        match spec_store_shared(opt_str_view(*old(store)), *arg_ty, spec_shared_mut_inner(*arg_ty), true) {
            Ok(s) => r is Ok && opt_str_view(*final(store)) == s,
            Err(d) => (r matches Err(e) && e@ == d) && *final(store) == *old(store),
        },
{
    let val = match as_ref_mut_ty(arg_ty) {
        Some(a) => match as_option_type(a) {
            Some(b) => as_box_type(b),
            None => None,
        },
        None => None,
    };
    store_shared(store, arg_ty, val, true)
}

/// Save or check a shared type declared as `Option<&T>`.
pub fn parse_shared_ref(store: &mut Option<String>, arg_ty: &Ty) -> (r: ProcResult<()>)
    ensures
        match spec_store_shared(opt_str_view(*old(store)), *arg_ty, spec_shared_ref_inner(*arg_ty), false) {
            Ok(s) => r is Ok && opt_str_view(*final(store)) == s,
            Err(d) => (r matches Err(e) && e@ == d) && *final(store) == *old(store),
        },
{
    let val = match as_option_type(arg_ty) {
        Some(a) => as_ref_ty(a),
        None => None,
    };
    store_shared(store, arg_ty, val, false)
}

// ---------------------------------------------------------------------------------------------
// Argument attributes

/// The default value of an argument of type `ty`, from its `#[default(...)]` attribute, as JSON
/// text; and the attributes left once that attribute is taken out.
pub open spec fn spec_arg_opts(attrs: Seq<Attr>, span: SpanId, ty: ParamTy)
    -> (Result<Option<Seq<char>>, Seq<DiagV>>, Seq<Attr>)
{
    let (rest, found) = spec_remove_attr(attrs, "default"@);
    (match found {
        None => Ok(None),
        Some(attr) => match attr.meta {
            AttrMeta::List { items } => match items {
                Err(d) => Err(seq![(d.span, d.msg@)]),
                Ok(v) => if v@.len() == 1 && v@[0] is Lit {
                    spec_default_of_lit(v@[0]->Lit_0, span, ty)
                } else {
                    Err(seq![(span, "Default value must be a literal value"@)])
                },
            },
            _ => Err(seq![(span, "Unexpected #[default(...)] attribute"@)]),
        },
    }, rest)
}

/// The JSON text of the value of a numeric literal written `text`, or the error on a literal
/// JSON cannot read.
pub open spec fn spec_number_default(text: Seq<char>, span: SpanId) -> Result<Option<Seq<char>>, Seq<DiagV>> {
    match spec_json_reread(text) {
        Some(j) => Ok(Some(j)),
        None => Err(seq![(span, "Default value must be a number JSON can read"@)]),
    }
}

fn number_default(text: &str, span: SpanId) -> (r: ProcResult<Option<String>>)
    ensures
        res_view(r, |o: Option<String>| opt_str_view(o)) == spec_number_default(text@, span),
{
    match json_number_text(text) {
        Some(j) => Ok(Some(j)),
        None => Err(error(span, "Default value must be a number JSON can read")),
    }
}

/// The JSON text of a literal default value for an argument of type `ty`.
pub open spec fn spec_default_of_lit(lit: LitValue, span: SpanId, ty: ParamTy)
    -> Result<Option<Seq<char>>, Seq<DiagV>>
{
    match lit {
        LitValue::Str(v) | LitValue::CStr(v) => if ty is Str || ty is CStr {
            Ok(Some(spec_json_quote(v@)))
        } else {
            Err(seq![(span, "Only `&str` and `&CStr` arguments can have a default string value"@)])
        },
        LitValue::Int { text } => if ty is I64 {
            spec_number_default(text@, span)
        } else {
            Err(seq![(span, "Only `i64` arguments can have a default integer value"@)])
        },
        LitValue::Float { text } => if ty is F64 {
            spec_number_default(text@, span)
        } else {
            Err(seq![(span, "Only `f64` arguments can have a default float value"@)])
        },
        LitValue::Bool(b) => if ty is Bool {
            Ok(Some(if b { "1"@ } else { "0"@ }))
        } else {
            Err(seq![(span, "Only `bool` arguments can have a default boolean value"@)])
        },
        LitValue::Other => Err(seq![(span, "Unrecognized value in #[default(...)]"@)]),
    }
}

/// Whether the argument is marked `#[required]`; and the attributes left once that attribute is
/// taken out.
pub open spec fn spec_required_attr(attrs: Seq<Attr>, span: SpanId) -> (Result<bool, Seq<DiagV>>, Seq<Attr>) {
    let (rest, found) = spec_remove_attr(attrs, "required"@);
    (match found {
        None => Ok(false),
        Some(attr) => if attr.meta matches AttrMeta::Path { last_plain: true } {
            Ok(true)
        } else {
            Err(seq![(span, "#[required] attribute must not have params"@)])
        },
    }, rest)
}

/// A `ProcResult` seen as its value or the view of its diagnostics.
pub open spec fn proc_view<T>(r: ProcResult<T>) -> Result<T, Seq<DiagV>> {
    match r {
        Ok(v) => Ok(v),
        Err(e) => Err(e@),
    }
}

fn default_of_lit(lit: &LitValue, span: SpanId, ty: ParamTy) -> (r: ProcResult<Option<String>>)
    ensures
        res_view(r, |o: Option<String>| opt_str_view(o)) == spec_default_of_lit(*lit, span, ty),
{
    match lit {
        LitValue::Str(v) | LitValue::CStr(v) => {
            if !matches!(ty, ParamTy::Str | ParamTy::CStr) {
                return Err(error(span, "Only `&str` and `&CStr` arguments can have a default string value"));
            }
            Ok(Some(json_quote(v.as_str())))
        },
        LitValue::Int { text } => {
            if !matches!(ty, ParamTy::I64) {
                return Err(error(span, "Only `i64` arguments can have a default integer value"));
            }
            number_default(text.as_str(), span)
        },
        LitValue::Float { text } => {
            if !matches!(ty, ParamTy::F64) {
                return Err(error(span, "Only `f64` arguments can have a default float value"));
            }
            number_default(text.as_str(), span)
        },
        LitValue::Bool(b) => {
            if !matches!(ty, ParamTy::Bool) {
                return Err(error(span, "Only `bool` arguments can have a default boolean value"));
            }
            Ok(Some(if *b { "1".to_owned() } else { "0".to_owned() }))
        },
        LitValue::Other => Err(error(span, "Unrecognized value in #[default(...)]")),
    }
}

impl ParamType {
    /// Try to get the default value from the `#[default(...)]` attribute on an argument.
    fn get_arg_opts(pat_ty: &mut PatType, arg_type: ParamTy) -> (r: ProcResult<Option<String>>)
        ensures
            res_view(r, |o: Option<String>| opt_str_view(o))
                == spec_arg_opts(old(pat_ty).attrs@, old(pat_ty).span, arg_type).0,
            final(pat_ty).attrs@ == spec_arg_opts(old(pat_ty).attrs@, old(pat_ty).span, arg_type).1,
            final(pat_ty).ty == old(pat_ty).ty,
            final(pat_ty).pat_ident == old(pat_ty).pat_ident,
            final(pat_ty).span == old(pat_ty).span,
    {
        let arg = match remove_attr(&mut pat_ty.attrs, "default") {
            Some(a) => a,
            None => return Ok(None),
        };
        match arg.meta {
            AttrMeta::List { items } => match items {
                Err(d) => {
                    let mut e = Errors::new();
                    e.push(d);
                    Err(e)
                },
                Ok(v) => {
                    if v.len() == 1 {
                        if let NestedMeta::Lit(lit) = &v[0] {
                            return default_of_lit(lit, pat_ty.span, arg_type);
                        }
                    }
                    Err(error(pat_ty.span, "Default value must be a literal value"))
                },
            },
            _ => Err(error(pat_ty.span, "Unexpected #[default(...)] attribute")),
        }
    }

    /// Try to get the `#[required]` attribute on an argument.
    fn get_required_attr(pat_ty: &mut PatType) -> (r: ProcResult<bool>)
        ensures
            proc_view(r) == spec_required_attr(old(pat_ty).attrs@, old(pat_ty).span).0,
            final(pat_ty).attrs@ == spec_required_attr(old(pat_ty).attrs@, old(pat_ty).span).1,
            final(pat_ty).ty == old(pat_ty).ty,
            final(pat_ty).pat_ident == old(pat_ty).pat_ident,
            final(pat_ty).span == old(pat_ty).span,
    {
        let arg = match remove_attr(&mut pat_ty.attrs, "required") {
            Some(a) => a,
            None => return Ok(false),
        };
        if let AttrMeta::Path { last_plain } = arg.meta {
            if last_plain {
                return Ok(true);
            }
        }
        Err(error(pat_ty.span, "#[required] attribute must not have params"))
    }
}

// ---------------------------------------------------------------------------------------------
// Argument types

/// What the parser knows while reading the arguments of one function: the shared types met so
/// far in the VMOD, what the function's arguments so far hold, and the current argument's
/// attributes.
pub struct ArgState {
    pub task: Option<Seq<char>>,
    pub vcl: Option<Seq<char>>,
    pub status: FuncStatus,
    pub attrs: Seq<Attr>,
}

pub open spec fn fail<T>(span: SpanId, msg: Seq<char>) -> Result<T, Seq<DiagV>> {
    Err(seq![(span, msg)])
}

/// The shared type stored by a `#[shared_per_task]` or `#[shared_per_vcl]` argument, then the
/// argument type when the function may take one more such argument.
pub open spec fn spec_shared_arg(
    st: ArgState,
    store: Option<Seq<char>>,
    inner: Option<Ty>,
    ty: Ty,
    span: SpanId,
    per_task: bool,
    result: ParamTypeV,
) -> (Result<ParamTypeV, Seq<DiagV>>, ArgState) {
    match spec_store_shared(store, ty, inner, per_task || result is SharedPerVclMut) {
        Err(d) => (Err(d), st),
        Ok(ns) => {
            let s4 = if per_task { ArgState { task: ns, ..st } } else { ArgState { vcl: ns, ..st } };
            if per_task && st.status.func_type is Event {
                (fail(span, "Event functions must not have any #[shared_per_task] arguments."@), s4)
            } else if per_task && st.status.has_shared_per_task {
                (fail(span, "#[shared_per_task] param is allowed only once in a function args list"@), s4)
            } else if !per_task && st.status.has_shared_per_vcl {
                (fail(span, "#[shared_per_vcl] param is allowed only once in a function args list"@), s4)
            } else if per_task {
                (Ok(result), ArgState { status: FuncStatus { has_shared_per_task: true, ..st.status }, ..s4 })
            } else {
                (Ok(result), ArgState { status: FuncStatus { has_shared_per_vcl: true, ..st.status }, ..s4 })
            }
        },
    }
}

/// The argument type of a typed argument of type `ty`, with the errors it gets; and the parser's
/// state after it.
pub open spec fn spec_param_type_parse(st: ArgState, ty: Ty, span: SpanId) -> (Result<ParamTypeV, Seq<DiagV>>, ArgState) {
    let (a1, per_task) = spec_remove_attr(st.attrs, "shared_per_task"@);
    let (a2, per_vcl) = spec_remove_attr(a1, "shared_per_vcl"@);
    let (a3, vcl_name) = spec_remove_attr(a2, "vcl_name"@);
    let s3 = ArgState { attrs: a3, ..st };
    if a3.len() + 1 < st.attrs.len() {
        (fail(span, "At most one of `shared_per_task`, `shared_per_vcl`, or `vcl_name` attributes can be used on a parameter"@), s3)
    } else if per_task is Some {
        spec_shared_arg(s3, st.task, spec_shared_mut_inner(ty), ty, span, true, ParamTypeV::SharedPerTask)
    } else if per_vcl is Some {
        spec_per_vcl_arg(s3, ty, span)
    } else if vcl_name is Some {
        spec_vcl_name_arg(s3, ty, span)
    } else {
        spec_plain_arg(s3, ty, span)
    }
}

/// A `#[shared_per_vcl]` argument: mutable in constructors and event handlers, read-only in
/// functions and methods.
pub open spec fn spec_per_vcl_arg(s3: ArgState, ty: Ty, span: SpanId) -> (Result<ParamTypeV, Seq<DiagV>>, ArgState) {
    let ft = s3.status.func_type;
    if ft is Constructor || ft is Event {
        spec_shared_arg(s3, s3.vcl, spec_shared_mut_inner(ty), ty, span, false, ParamTypeV::SharedPerVclMut)
    } else if ft is Function || ft is Method {
        spec_shared_arg(s3, s3.vcl, spec_shared_ref_inner(ty), ty, span, false, ParamTypeV::SharedPerVclRef)
    } else {
        (fail(span, "#[shared_per_vcl] params can only be used in functions, object constructors, methods, and event handlers"@), s3)
    }
}

/// A `#[vcl_name]` argument: once, in a constructor, as `&str` or `&CStr`.
pub open spec fn spec_vcl_name_arg(s3: ArgState, ty: Ty, span: SpanId) -> (Result<ParamTypeV, Seq<DiagV>>, ArgState) {
    if !(s3.status.func_type is Constructor) {
        (fail(span, "#[vcl_name] params are only allowed in object constructors"@), s3)
    } else if s3.status.has_vcl_name {
        (fail(span, "#[vcl_name] param is allowed only once in a function args list"@), s3)
    } else {
        let s4 = ArgState { status: FuncStatus { has_vcl_name: true, ..s3.status }, ..s3 };
        match spec_param_ty(ty) {
            Some(p) => if p is Str || p is CStr {
                (Ok(ParamTypeV::VclName((ParamKind::Regular, None, p))), s4)
            } else {
                (fail(span, "#[vcl_name] params must be declared as `&str` or `&CStr`"@), s4)
            },
            None => (fail(span, "#[vcl_name] params must be declared as `&str` or `&CStr`"@), s4),
        }
    }
}

/// An argument without a special attribute: an event, the context, the workspace, a filter
/// registry, or a value of a basic VCL type.
pub open spec fn spec_plain_arg(s3: ArgState, ty: Ty, span: SpanId) -> (Result<ParamTypeV, Seq<DiagV>>, ArgState) {
    let ft = s3.status.func_type;
    let st = s3;
    if spec_simple_ident(ty) == Some("Event"@) {
        if !(ft is Event) {
            (fail(span, "Event parameters are only allowed in event handlers. Try adding `#[event]` to this function."@), s3)
        } else if st.status.has_event {
            (fail(span, "Event param is allowed only once in a function args list"@), s3)
        } else {
            (Ok(ParamTypeV::Event), ArgState { status: FuncStatus { has_event: true, ..st.status }, ..s3 })
        }
    } else if spec_ctx_or_ws(spec_ref_ty(ty)) is Some {
        if st.status.has_ctx_or_ws {
            (fail(span, "Context or Workspace param is allowed only once in a function args list"@), s3)
        } else {
            let is_ctx = spec_ctx_or_ws(spec_ref_ty(ty)) == Some(true);
            (Ok(if is_ctx { ParamTypeV::Context { is_mut: false } } else { ParamTypeV::Workspace { is_mut: false } }),
                ArgState { status: FuncStatus { has_ctx_or_ws: true, ..st.status }, ..s3 })
        }
    } else if spec_ctx_or_ws(spec_ref_mut_ty(ty)) is Some {
        if st.status.has_ctx_or_ws {
            (fail(span, "Context or Workspace param is allowed only once in a function args list"@), s3)
        } else {
            let is_ctx = spec_ctx_or_ws(spec_ref_mut_ty(ty)) == Some(true);
            (Ok(if is_ctx { ParamTypeV::Context { is_mut: true } } else { ParamTypeV::Workspace { is_mut: true } }),
                ArgState { status: FuncStatus { has_ctx_or_ws: true, ..st.status }, ..s3 })
        }
    } else if spec_ref_mut_named(ty, "FetchFilters"@) {
        if !(ft is Constructor || ft is Event) {
            (fail(span, if ft is Function {
                "FetchFilters parameters are only allowed in object constructors and event handlers. Is this function missing `#[event]`?"@
            } else {
                "FetchFilters parameters are only allowed in object constructors and event handlers."@
            }), s3)
        } else if st.status.has_fetch_filters {
            (fail(span, "A FetchFilters param is allowed only once in a function args list"@), s3)
        } else {
            (Ok(ParamTypeV::FetchFilters), ArgState { status: FuncStatus { has_fetch_filters: true, ..st.status }, ..s3 })
        }
    } else if spec_ref_mut_named(ty, "DeliveryFilters"@) {
        if !(ft is Constructor || ft is Event) {
            (fail(span, if ft is Function {
                "DeliveryFilters parameters are only allowed in object constructors and event handlers. Is this function missing `#[event]`?"@
            } else {
                "DeliveryFilters parameters are only allowed in object constructors and event handlers."@
            }), s3)
        } else if st.status.has_delivery_filters {
            (fail(span, "A DeliveryFilters param is allowed only once in a function args list"@), s3)
        } else {
            (Ok(ParamTypeV::DeliveryFilters), ArgState { status: FuncStatus { has_delivery_filters: true, ..st.status }, ..s3 })
        }
    } else if ft is Event {
        (fail(span, "Event functions can only have `Ctx`, `#[event] Event`, and `#[shared_per_vcl] &mut Option<Box<T>>` arguments."@), s3)
    } else {
        spec_value_arg(s3, ty, span)
    }
}

/// An argument of a basic VCL type, possibly optional, with its default value and its
/// `#[required]` marker.
pub open spec fn spec_value_arg(s3: ArgState, ty: Ty, span: SpanId) -> (Result<ParamTypeV, Seq<DiagV>>, ArgState) {
    match spec_param_ty_or_optional(ty) {
        None => (fail(span, "unsupported argument type"@), s3),
        Some((opt, p)) => if !opt && spec_must_be_optional(p) {
            (fail(span, "This type of argument must be declared as optional with `Option<...>`"@), s3)
        } else {
            let (dres, a4) = spec_arg_opts(s3.attrs, span, p);
            let s4 = ArgState { attrs: a4, ..s3 };
            match dres {
                Err(d) => (Err(d), s4),
                Ok(def) => {
                    let (rres, a5) = spec_required_attr(a4, span);
                    let s5 = ArgState { attrs: a5, ..s3 };
                    match rres {
                        Err(d) => (Err(d), s5),
                        Ok(req) => if req {
                            if !opt {
                                (fail(span, "The `required` attribute is only allowed on Option<...> arguments"@), s5)
                            } else if !spec_must_be_optional(p) && !(p is CStr || p is Str) {
                                (fail(span, "The `required` attribute is only allowed on CStr, str, Probe, ProbeCow, and SocketAddr arguments"@), s5)
                            } else {
                                (Ok(ParamTypeV::Value((ParamKind::Required, def, p))), s5)
                            }
                        } else if opt {
                            (Ok(ParamTypeV::Value((ParamKind::Optional, def, p))), s5)
                        } else {
                            (Ok(ParamTypeV::Value((ParamKind::Regular, def, p))), s5)
                        },
                    }
                },
            }
        },
    }
}

/// `Some(true)` for the simple type `Ctx`, `Some(false)` for `Workspace`.
pub open spec fn spec_ctx_or_ws(t: Option<Ty>) -> Option<bool> {
    match t {
        Some(inner) => if spec_simple_ident(inner) == Some("Ctx"@) {
            Some(true)
        } else if spec_simple_ident(inner) == Some("Workspace"@) {
            Some(false)
        } else {
            None
        },
        None => None,
    }
}

/// The type is `&mut name` for a simple type `name`.
pub open spec fn spec_ref_mut_named(t: Ty, name: Seq<char>) -> bool {
    match spec_ref_mut_ty(t) {
        Some(inner) => spec_simple_ident(inner) == Some(name),
        None => false,
    }
}

fn ctx_or_ws(t: Option<&Ty>) -> (r: Option<bool>)
    ensures
        r == spec_ctx_or_ws(deref_opt(t)),
{
    match t {
        Some(inner) => {
            if is_simple_ty(inner, "Ctx") {
                Some(true)
            } else if is_simple_ty(inner, "Workspace") {
                Some(false)
            } else {
                None
            }
        },
        None => None,
    }
}

fn ref_mut_named(t: &Ty, name: &str) -> (r: bool)
    ensures
        r == spec_ref_mut_named(*t, name@),
{
    match as_ref_mut_ty(t) {
        Some(inner) => is_simple_ty(inner, name),
        None => false,
    }
}

/// The view of the shared types and the status with the argument's attributes.
pub open spec fn arg_state(shared: SharedTypesV, status: FuncStatus, attrs: Seq<Attr>) -> ArgState {
    ArgState { task: shared.0, vcl: shared.1, status, attrs }
}

/// The view of [`SharedTypes`]: per task, per VCL.
pub type SharedTypesV = (Option<Seq<char>>, Option<Seq<char>>);

pub open spec fn shared_view(s: crate::model::SharedTypes) -> SharedTypesV {
    (opt_str_view(s.shared_per_task_ty), opt_str_view(s.shared_per_vcl_ty))
}

/// The parser state as seen by a step of argument parsing.
pub open spec fn step_post(
    r: ProcResult<ParamType>,
    st: ArgState,
    out: (Result<ParamTypeV, Seq<DiagV>>, ArgState),
) -> bool {
    &&& res_view(r, |t: ParamType| param_type_view(t)) == out.0
    &&& st == out.1
}

/// A `#[shared_per_task]` or `#[shared_per_vcl]` argument.
fn shared_arg(
    store: &mut Option<String>,
    status: &mut FuncStatus,
    arg_ty: &Ty,
    span: SpanId,
    per_task: bool,
    mutable: bool,
) -> (r: ProcResult<ParamType>)
    requires
        per_task ==> mutable,
    ensures
        ({
            let st0 = if per_task {
                ArgState { task: opt_str_view(*old(store)), vcl: None, status: *old(status), attrs: Seq::empty() }
            } else {
                ArgState { task: None, vcl: opt_str_view(*old(store)), status: *old(status), attrs: Seq::empty() }
            };
            let inner = if mutable { spec_shared_mut_inner(*arg_ty) } else { spec_shared_ref_inner(*arg_ty) };
            let result = if per_task { ParamTypeV::SharedPerTask } else if mutable { ParamTypeV::SharedPerVclMut } else { ParamTypeV::SharedPerVclRef };
            let st1 = if per_task {
                ArgState { task: opt_str_view(*final(store)), vcl: None, status: *final(status), attrs: Seq::empty() }
            } else {
                ArgState { task: None, vcl: opt_str_view(*final(store)), status: *final(status), attrs: Seq::empty() }
            };
            step_post(r, st1, spec_shared_arg(st0, opt_str_view(*old(store)), inner, *arg_ty, span, per_task, result))
        }),
{
    if mutable {
        parse_shared_mut(store, arg_ty)?;
    } else {
        parse_shared_ref(store, arg_ty)?;
    }
    if per_task {
        if matches!(status.func_type, FuncType::Event) {
            return Err(error(span, "Event functions must not have any #[shared_per_task] arguments."));
        }
        if status.has_shared_per_task {
            return Err(error(span, "#[shared_per_task] param is allowed only once in a function args list"));
        }
        status.has_shared_per_task = true;
        Ok(ParamType::SharedPerTask)
    } else {
        if status.has_shared_per_vcl {
            return Err(error(span, "#[shared_per_vcl] param is allowed only once in a function args list"));
        }
        status.has_shared_per_vcl = true;
        if mutable {
            Ok(ParamType::SharedPerVclMut)
        } else {
            Ok(ParamType::SharedPerVclRef)
        }
    }
}

/// A `#[vcl_name]` argument.
fn vcl_name_arg(status: &mut FuncStatus, arg_ty: &Ty, span: SpanId, attrs: Ghost<Seq<Attr>>, shared: Ghost<SharedTypesV>) -> (r: ProcResult<ParamType>)
    ensures
        step_post(r, arg_state(shared@, *final(status), attrs@),
            spec_vcl_name_arg(arg_state(shared@, *old(status), attrs@), *arg_ty, span)),
{
    if !matches!(status.func_type, FuncType::Constructor) {
        return Err(error(span, "#[vcl_name] params are only allowed in object constructors"));
    }
    if status.has_vcl_name {
        return Err(error(span, "#[vcl_name] param is allowed only once in a function args list"));
    }
    status.has_vcl_name = true;
    match ParamTy::try_parse(arg_ty) {
        Some(p) => {
            if matches!(p, ParamTy::Str | ParamTy::CStr) {
                Ok(ParamType::VclName(ParamInfo { kind: ParamKind::Regular, default: None, ty_info: p }))
            } else {
                Err(error(span, "#[vcl_name] params must be declared as `&str` or `&CStr`"))
            }
        },
        None => Err(error(span, "#[vcl_name] params must be declared as `&str` or `&CStr`")),
    }
}

/// An argument without a special attribute.
fn plain_arg(pat_ty: &mut PatType, status: &mut FuncStatus, shared: Ghost<SharedTypesV>) -> (r: ProcResult<ParamType>)
    ensures
        step_post(r, arg_state(shared@, *final(status), final(pat_ty).attrs@),
            spec_plain_arg(arg_state(shared@, *old(status), old(pat_ty).attrs@), old(pat_ty).ty, old(pat_ty).span)),
        final(pat_ty).ty == old(pat_ty).ty,
        final(pat_ty).pat_ident == old(pat_ty).pat_ident,
        final(pat_ty).span == old(pat_ty).span,
{
    let span = pat_ty.span;
    let ft = status.func_type;
    let arg_ty = &pat_ty.ty;
    if is_simple_ty(arg_ty, "Event") {
        if !matches!(ft, FuncType::Event) {
            return Err(error(span, "Event parameters are only allowed in event handlers. Try adding `#[event]` to this function."));
        }
        if status.has_event {
            return Err(error(span, "Event param is allowed only once in a function args list"));
        }
        status.has_event = true;
        Ok(ParamType::Event)
    } else if let Some(is_ctx) = ctx_or_ws(as_ref_ty(arg_ty)) {
        if status.has_ctx_or_ws {
            return Err(error(span, "Context or Workspace param is allowed only once in a function args list"));
        }
        status.has_ctx_or_ws = true;
        if is_ctx {
            Ok(ParamType::Context { is_mut: false })
        } else {
            Ok(ParamType::Workspace { is_mut: false })
        }
    } else if let Some(is_ctx) = ctx_or_ws(as_ref_mut_ty(arg_ty)) {
        if status.has_ctx_or_ws {
            return Err(error(span, "Context or Workspace param is allowed only once in a function args list"));
        }
        status.has_ctx_or_ws = true;
        if is_ctx {
            Ok(ParamType::Context { is_mut: true })
        } else {
            Ok(ParamType::Workspace { is_mut: true })
        }
    } else if ref_mut_named(arg_ty, "FetchFilters") {
        if !matches!(ft, FuncType::Constructor | FuncType::Event) {
            if matches!(ft, FuncType::Function) {
                return Err(error(span, "FetchFilters parameters are only allowed in object constructors and event handlers. Is this function missing `#[event]`?"));
            } else {
                return Err(error(span, "FetchFilters parameters are only allowed in object constructors and event handlers."));
            }
        }
        if status.has_fetch_filters {
            return Err(error(span, "A FetchFilters param is allowed only once in a function args list"));
        }
        status.has_fetch_filters = true;
        Ok(ParamType::FetchFilters)
    } else if ref_mut_named(arg_ty, "DeliveryFilters") {
        if !matches!(ft, FuncType::Constructor | FuncType::Event) {
            if matches!(ft, FuncType::Function) {
                return Err(error(span, "DeliveryFilters parameters are only allowed in object constructors and event handlers. Is this function missing `#[event]`?"));
            } else {
                return Err(error(span, "DeliveryFilters parameters are only allowed in object constructors and event handlers."));
            }
        }
        if status.has_delivery_filters {
            return Err(error(span, "A DeliveryFilters param is allowed only once in a function args list"));
        }
        status.has_delivery_filters = true;
        Ok(ParamType::DeliveryFilters)
    } else if matches!(ft, FuncType::Event) {
        Err(error(span, "Event functions can only have `Ctx`, `#[event] Event`, and `#[shared_per_vcl] &mut Option<Box<T>>` arguments."))
    } else {
        value_arg(pat_ty, *status, shared)
    }
}

/// An argument of a basic VCL type.
fn value_arg(pat_ty: &mut PatType, status: FuncStatus, shared: Ghost<SharedTypesV>) -> (r: ProcResult<ParamType>)
    ensures
        step_post(r, arg_state(shared@, status, final(pat_ty).attrs@),
            spec_value_arg(arg_state(shared@, status, old(pat_ty).attrs@), old(pat_ty).ty, old(pat_ty).span)),
        final(pat_ty).ty == old(pat_ty).ty,
        final(pat_ty).pat_ident == old(pat_ty).pat_ident,
        final(pat_ty).span == old(pat_ty).span,
{
    let span = pat_ty.span;
    let (opt, p) = match ParamTy::try_parse_or_optional(&pat_ty.ty) {
        Some(x) => x,
        None => return Err(error(span, "unsupported argument type")),
    };
    if !opt && p.must_be_optional() {
        return Err(error(span, "This type of argument must be declared as optional with `Option<...>`"));
    }
    let default = ParamType::get_arg_opts(pat_ty, p)?;
    let has_required = ParamType::get_required_attr(pat_ty)?;
    let kind = if has_required {
        if !opt {
            return Err(error(span, "The `required` attribute is only allowed on Option<...> arguments"));
        }
        if !p.must_be_optional() && !matches!(p, ParamTy::CStr | ParamTy::Str) {
            return Err(error(span, "The `required` attribute is only allowed on CStr, str, Probe, ProbeCow, and SocketAddr arguments"));
        }
        ParamKind::Required
    } else if opt {
        ParamKind::Optional
    } else {
        ParamKind::Regular
    };
    Ok(ParamType::Value(ParamInfo { kind, default, ty_info: p }))
}

impl ParamType {
    /// Parse an argument type, including the magical types like shared types and context.
    pub fn parse(
        shared_types: &mut crate::model::SharedTypes,
        pat_ty: &mut PatType,
        status: &mut FuncStatus,
    ) -> (r: ProcResult<Self>)
        ensures
            ({
                let (res, st) = spec_param_type_parse(
                    arg_state(shared_view(*old(shared_types)), *old(status), old(pat_ty).attrs@),
                    old(pat_ty).ty,
                    old(pat_ty).span,
                );
                &&& res_view(r, |t: ParamType| param_type_view(t)) == res
                &&& shared_view(*final(shared_types)) == (st.task, st.vcl)
                &&& *final(status) == st.status
                &&& final(pat_ty).attrs@ == st.attrs
            }),
            final(pat_ty).ty == old(pat_ty).ty,
            final(pat_ty).pat_ident == old(pat_ty).pat_ident,
            final(pat_ty).span == old(pat_ty).span,
    {
        let span = pat_ty.span;
        let attr_count = pat_ty.attrs.len();
        let is_per_task = remove_attr(&mut pat_ty.attrs, "shared_per_task");
        let is_per_vcl = remove_attr(&mut pat_ty.attrs, "shared_per_vcl");
        let is_vcl_name = remove_attr(&mut pat_ty.attrs, "vcl_name");
        if (pat_ty.attrs.len() as u128) + 1 < attr_count as u128 {
            return Err(error(span, "At most one of `shared_per_task`, `shared_per_vcl`, or `vcl_name` attributes can be used on a parameter"));
        }
        let ghost sh = shared_view(*shared_types);
        if is_per_task.is_some() {
            shared_arg(&mut shared_types.shared_per_task_ty, status, &pat_ty.ty, span, true, true)
        } else if is_per_vcl.is_some() {
            if matches!(status.func_type, FuncType::Constructor | FuncType::Event) {
                shared_arg(&mut shared_types.shared_per_vcl_ty, status, &pat_ty.ty, span, false, true)
            } else if matches!(status.func_type, FuncType::Function | FuncType::Method) {
                shared_arg(&mut shared_types.shared_per_vcl_ty, status, &pat_ty.ty, span, false, false)
            } else {
                Err(error(span, "#[shared_per_vcl] params can only be used in functions, object constructors, methods, and event handlers"))
            }
        } else if is_vcl_name.is_some() {
            vcl_name_arg(status, &pat_ty.ty, span, Ghost(pat_ty.attrs@), Ghost(sh))
        } else {
            plain_arg(pat_ty, status, Ghost(sh))
        }
    }
}

/// The view of a [`ParamTypeInfo`]: name, docs, type.
pub type ParamTypeInfoV = (Seq<char>, Seq<char>, ParamTypeV);

pub open spec fn param_type_info_view(p: ParamTypeInfo) -> ParamTypeInfoV {
    (p.ident@, p.docs@, param_type_view(p.ty))
}

/// The attributes of an argument.
pub open spec fn fn_arg_attrs(a: FnArg) -> Seq<Attr> {
    match a {
        FnArg::Receiver(r) => r.attrs@,
        FnArg::Typed(p) => p.attrs@,
    }
}

/// `b` is `a` with only its attributes changed.
pub open spec fn same_but_attrs(a: FnArg, b: FnArg) -> bool {
    match (a, b) {
        (FnArg::Receiver(x), FnArg::Receiver(y)) => x.reference == y.reference && x.mutable == y.mutable
            && x.span == y.span,
        (FnArg::Typed(x), FnArg::Typed(y)) => x.pat_ident == y.pat_ident && x.ty == y.ty && x.span == y.span,
        _ => false,
    }
}

/// What reading one argument gives: the argument or its diagnostics, the shared types, the
/// status, and the argument's attributes once the ones the parser consumes are taken out.
pub open spec fn spec_param_type_info_parse(sh: SharedTypesV, status: FuncStatus, idx: int, arg: FnArg)
    -> (Result<ParamTypeInfoV, Seq<DiagV>>, SharedTypesV, FuncStatus, Seq<Attr>)
{
    match arg {
        FnArg::Receiver(recv) => if status.func_type is Method {
            if idx != 0 || !recv.reference || recv.mutable {
                (fail(recv.span, "First method arg must be `&self`"@), sh, status, recv.attrs@)
            } else {
                (Ok(("self"@, spec_doc_str(recv.attrs@), ParamTypeV::SelfType)), sh, status,
                    spec_remove_all_attrs(recv.attrs@, "doc"@))
            }
        } else {
            (fail(recv.span, "`self` is not allowed for this function"@), sh, status, recv.attrs@)
        },
        FnArg::Typed(pat) => {
            let (res, st) = spec_param_type_parse(arg_state(sh, status, pat.attrs@), pat.ty, pat.span);
            match res {
                Err(d) => (Err(d), (st.task, st.vcl), st.status, st.attrs),
                Ok(t) => match pat.pat_ident {
                    None => (fail(pat.span, "unsupported argument pattern"@), (st.task, st.vcl), st.status, st.attrs),
                    Some(id) => (Ok((id@, spec_doc_str(st.attrs), t)), (st.task, st.vcl), st.status,
                        spec_remove_all_attrs(st.attrs, "doc"@)),
                },
            }
        },
    }
}

impl ParamTypeInfo {
    /// Parse an argument of a function, including `&self` for methods.
    pub fn parse(
        shared_types: &mut crate::model::SharedTypes,
        status: &mut FuncStatus,
        idx: usize,
        arg: &mut FnArg,
    ) -> (r: ProcResult<Self>)
        ensures
            ({
                let (res, sh, st, attrs) = spec_param_type_info_parse(
                    shared_view(*old(shared_types)), *old(status), idx as int, *old(arg));
                &&& res_view(r, |p: ParamTypeInfo| param_type_info_view(p)) == res
                &&& shared_view(*final(shared_types)) == sh
                &&& *final(status) == st
                &&& fn_arg_attrs(*final(arg)) == attrs
            }),
            same_but_attrs(*old(arg), *final(arg)),
    {
        match arg {
            FnArg::Receiver(recv) => {
                if matches!(status.func_type, FuncType::Method) {
                    if idx != 0 || !recv.reference || recv.mutable {
                        return Err(error(recv.span, "First method arg must be `&self`"));
                    }
                    let docs = parse_and_rm_doc(&mut recv.attrs);
                    Ok(ParamTypeInfo { ident: "self".to_owned(), docs, ty: ParamType::SelfType })
                } else {
                    Err(error(recv.span, "`self` is not allowed for this function"))
                }
            },
            FnArg::Typed(pat_ty) => {
                let ty = ParamType::parse(shared_types, pat_ty, status)?;
                let ident = match &pat_ty.pat_ident {
                    Some(i) => i.clone(),
                    None => return Err(error(pat_ty.span, "unsupported argument pattern")),
                };
                let docs = parse_and_rm_doc(&mut pat_ty.attrs);
                Ok(ParamTypeInfo { ident, docs, ty })
            },
        }
    }
}

// ---------------------------------------------------------------------------------------------
// Laws of argument parsing

proof fn lemma_find_none(attrs: Seq<Attr>, name: Seq<char>)
    requires
        forall|j: int| 0 <= j < attrs.len() ==> !attr_is(#[trigger] attrs[j], name),
    ensures
        spec_find_attr(attrs, name) is None,
    decreases attrs.len(),
{
    if attrs.len() > 0 {
        assert forall|j: int| 0 <= j < attrs.len() - 1 implies !attr_is(#[trigger] attrs.drop_last()[j], name) by {
            assert(attrs.drop_last()[j] == attrs[j]);
        }
        lemma_find_none(attrs.drop_last(), name);
    }
}

/// Taking out the one attribute `name` of a list leaves none called `other` where there was none.
proof fn lemma_remove_keeps_absent(attrs: Seq<Attr>, name: Seq<char>, other: Seq<char>)
    requires
        spec_find_attr(attrs, other) is None,
    ensures
        spec_find_attr(spec_remove_attr(attrs, name).0, other) is None,
        spec_find_attr(attrs, name) is Some ==> spec_remove_attr(attrs, name).0.len() == attrs.len() - 1,
{
    lemma_find_attr(attrs, other);
    lemma_find_attr(attrs, name);
    let a = spec_remove_attr(attrs, name).0;
    if let Some(i) = spec_find_attr(attrs, name) {
        assert forall|j: int| 0 <= j < a.len() implies !attr_is(#[trigger] a[j], other) by {
            if j == i {
                assert(a[j] == attrs[attrs.len() - 1]);
            } else {
                assert(a[j] == attrs[j]);
            }
        }
        lemma_find_none(a, other);
    }
}

/// Every `#[shared_per_vcl]` argument declares the same type. For an argument with that marker
/// (and neither `#[shared_per_task]` nor `#[vcl_name]`), in a function that has no such argument
/// yet: a type not of the required form is refused; a type other than the one met first is
/// refused; the same type, or the first one met when it reads back as a type, is taken as the
/// state shared per VCL load, mutable in constructors and event handlers and read-only in
/// functions and methods, and is the type kept.
pub proof fn lemma_shared_per_vcl_consistent(st: ArgState, ty: Ty, span: SpanId)
    requires
        spec_find_attr(st.attrs, "shared_per_vcl"@) is Some,
        spec_find_attr(st.attrs, "shared_per_task"@) is None,
        spec_find_attr(st.attrs, "vcl_name"@) is None,
        !st.status.has_shared_per_vcl,
        !(st.status.func_type is Destructor),
    ensures
        ({
            let (res, s) = spec_param_type_parse(st, ty, span);
            let ft = st.status.func_type;
            let mutable = ft is Constructor || ft is Event;
            let inner = if mutable { spec_shared_mut_inner(ty) } else { spec_shared_ref_inner(ty) };
            let accepted = if mutable { ParamTypeV::SharedPerVclMut } else { ParamTypeV::SharedPerVclRef };
            &&& inner is None ==> res is Err
            &&& inner matches Some(t) ==> match st.vcl {
                Some(p) => if p != t.text@ {
                    res == fail::<ParamTypeV>(ty.span,
                        "Shared type must be the same everywhere. Another shared param used type `"@ + p + "`."@)
                } else {
                    res == Ok::<ParamTypeV, Seq<DiagV>>(accepted) && s.vcl == Some(p)
                },
                None => spec_type_text_parses(t.text@) ==> res == Ok::<ParamTypeV, Seq<DiagV>>(accepted)
                    && s.vcl == Some(t.text@),
            }
        }),
{
    let a1 = spec_remove_attr(st.attrs, "shared_per_task"@).0;
    lemma_find_attr(st.attrs, "shared_per_task"@);
    assert(a1 == st.attrs);
    lemma_remove_keeps_absent(a1, "shared_per_vcl"@, "vcl_name"@);
}

/// The context or the workspace is taken once at most. For an argument of type `&Ctx`,
/// `&mut Ctx`, `&Workspace` or `&mut Workspace` without a marker attribute: it is refused when
/// the function already has one, else it is taken and the function then has one.
pub proof fn lemma_ctx_or_ws_once(st: ArgState, ty: Ty, span: SpanId)
    requires
        spec_find_attr(st.attrs, "shared_per_vcl"@) is None,
        spec_find_attr(st.attrs, "shared_per_task"@) is None,
        spec_find_attr(st.attrs, "vcl_name"@) is None,
        spec_ctx_or_ws(spec_ref_ty(ty)) is Some || spec_ctx_or_ws(spec_ref_mut_ty(ty)) is Some,
    ensures
        ({
            let (res, s) = spec_param_type_parse(st, ty, span);
            &&& st.status.has_ctx_or_ws ==> res == fail::<ParamTypeV>(span,
                "Context or Workspace param is allowed only once in a function args list"@)
            &&& !st.status.has_ctx_or_ws ==> (res matches Ok(p) && (p is Context || p is Workspace))
                && s.status.has_ctx_or_ws
        }),
{
    assert(spec_simple_ident(ty) is None);
}

/// Each Rust type an argument may be declared with is read as its own VCL type: `bool` as a
/// boolean, `Duration` as a duration, `f64` as a real, `i64` as an integer, `Probe` as a probe,
/// `SocketAddr` as an address, `&str` and `&CStr` as strings.
pub proof fn lemma_param_type_names(t: Ty)
    ensures
        spec_simple_ident(t) == Some("bool"@) ==> spec_param_ty(t) == Some(ParamTy::Bool),
        spec_simple_ident(t) == Some("Duration"@) ==> spec_param_ty(t) == Some(ParamTy::Duration),
        spec_simple_ident(t) == Some("f64"@) ==> spec_param_ty(t) == Some(ParamTy::F64),
        spec_simple_ident(t) == Some("i64"@) ==> spec_param_ty(t) == Some(ParamTy::I64),
        spec_simple_ident(t) == Some("Probe"@) ==> spec_param_ty(t) == Some(ParamTy::Probe),
        spec_simple_ident(t) == Some("SocketAddr"@) ==> spec_param_ty(t) == Some(ParamTy::SocketAddr),
        spec_ref_ty(t) matches Some(inner) && spec_simple_ident(inner) == Some("str"@) ==> spec_param_ty(t) == Some(ParamTy::Str),
        spec_ref_ty(t) matches Some(inner) && spec_simple_ident(inner) == Some("CStr"@) ==> spec_param_ty(t) == Some(ParamTy::CStr),
{
    reveal_strlit("bool");
    reveal_strlit("Duration");
    reveal_strlit("f64");
    reveal_strlit("i64");
    reveal_strlit("Probe");
    reveal_strlit("SocketAddr");
    reveal_strlit("str");
    reveal_strlit("CStr");
    reveal_strlit("CowProbe");
    assert("Duration"@.len() != "bool"@.len());
    assert("f64"@.len() != "bool"@.len() && "f64"@.len() != "Duration"@.len());
    assert("i64"@[0] != "f64"@[0]);
    assert("i64"@.len() != "bool"@.len() && "i64"@.len() != "Duration"@.len());
    assert("Probe"@.len() != "bool"@.len() && "Probe"@.len() != "Duration"@.len() && "Probe"@.len() != "f64"@.len()
        && "Probe"@.len() != "i64"@.len());
    assert("SocketAddr"@.len() != "bool"@.len() && "SocketAddr"@.len() != "Duration"@.len()
        && "SocketAddr"@.len() != "f64"@.len() && "SocketAddr"@.len() != "i64"@.len() && "SocketAddr"@.len() != "Probe"@.len());
    assert("CStr"@[0] != "str"@[0]);
}

} // verus!
