//! Reading a VMOD: the user's `mod`, its functions and its object `impl` blocks, into the model.
use vstd::prelude::*;
use crate::errors::{Errors, ProcResult, DiagV, diags_view};
use crate::model::{FuncType, FuncInfo, ObjInfo, OutputTy, ParamKind, ParamType, ParamTypeInfo,
    SharedTypes, VmodInfo, VmodParams, output_ty_wf};
use crate::parser_args::{FnArg, FuncStatus, ParamTypeInfoV, ParamTypeV, SharedTypesV, OutputTyV,
    spec_new_status, spec_param_type_info_parse, param_type_info_view, output_ty_view, shared_view,
    fn_arg_attrs, same_but_attrs, spec_output_parse, res_view};
use crate::types::{Attr, Ty, SpanId, CALL_SITE, spec_remove_attr, spec_find_attr, spec_result_type, attr_is,
    remove_attr, as_result_type, as_simple_ty, spec_simple_ident, deref_opt};
use crate::docs::{parse_doc_str, spec_doc_str};
use crate::text::str_eq;

verus! {

/// A function signature.
#[derive(Debug)]
pub struct Signature {
    pub ident: String,
    pub is_async: bool,
    pub is_unsafe: bool,
    /// The declared return type; `None` for `()` left implicit
    pub output: Option<Ty>,
    pub inputs: Vec<FnArg>,
    pub span: SpanId,
}

/// A function, free or in an `impl` block.
#[derive(Debug)]
pub struct FnItem {
    pub sig: Signature,
    /// Declared `pub`
    pub vis_public: bool,
    pub attrs: Vec<Attr>,
}

// ---------------------------------------------------------------------------------------------
// Functions

/// The view of a [`FuncInfo`]: kind, name, docs, whether it has optional arguments, arguments,
/// output type, whether it returns a `Result`.
pub type FuncInfoV = (FuncType, Seq<char>, Seq<char>, bool, Seq<ParamTypeInfoV>, OutputTyV, bool);

pub open spec fn func_info_view(f: FuncInfo) -> FuncInfoV {
    (f.func_type, f.ident@, f.docs@, f.has_optional_args,
        infos_view(f.args@), output_ty_view(f.output_ty),
        f.out_result)
}

/// The views of a list of arguments.
pub open spec fn infos_view(s: Seq<ParamTypeInfo>) -> Seq<ParamTypeInfoV> {
    s.map_values(|p: ParamTypeInfo| param_type_info_view(p))
}

/// What reading the arguments of a function gives, argument after argument.
pub struct ArgsFold {
    pub infos: Seq<ParamTypeInfoV>,
    pub diags: Seq<DiagV>,
    pub sh: SharedTypesV,
    pub status: FuncStatus,
    /// The attributes each argument keeps
    pub attrs: Seq<Seq<Attr>>,
}

pub open spec fn args_fold(sh0: SharedTypesV, st0: FuncStatus, inputs: Seq<FnArg>) -> ArgsFold
    decreases inputs.len(),
{
    if inputs.len() == 0 {
        ArgsFold { infos: seq![], diags: seq![], sh: sh0, status: st0, attrs: seq![] }
    } else {
        let p = args_fold(sh0, st0, inputs.drop_last());
        let (res, sh, st, at) = spec_param_type_info_parse(p.sh, p.status, inputs.len() - 1, inputs.last());
        ArgsFold {
            infos: match res {
                Ok(i) => p.infos.push(i),
                Err(_) => p.infos,
            },
            diags: match res {
                Err(d) => p.diags + d,
                Ok(_) => p.diags,
            },
            sh,
            status: st,
            attrs: p.attrs.push(at),
        }
    }
}

/// The argument is a value argument declared with `Option<...>`.
pub open spec fn is_optional_arg(p: ParamTypeInfoV) -> bool {
    p.2 matches ParamTypeV::Value(v) && v.0 is Optional
}

/// The kind of a function: an event handler when marked `#[event]`, else a constructor (`new`)
/// or method in an object, else a free function.
pub open spec fn spec_func_type(has_event: bool, is_object: bool, ident: Seq<char>) -> FuncType {
    if has_event {
        FuncType::Event
    } else if is_object {
        if ident == "new"@ { FuncType::Constructor } else { FuncType::Method }
    } else {
        FuncType::Function
    }
}

/// The output type and whether the function returns a `Result`.
pub open spec fn spec_func_output(output: Option<Ty>, ft: FuncType) -> Result<(OutputTyV, bool), Seq<DiagV>> {
    match output {
        None => Ok((OutputTyV::Default, false)),
        Some(ty) => match spec_result_type(ty) {
            Some(ok) => match spec_output_parse(ok, ft) {
                Ok(o) => Ok((o, true)),
                Err(d) => Err(d),
            },
            None => match spec_output_parse(ty, ft) {
                Ok(o) => Ok((o, false)),
                Err(d) => Err(d),
            },
        },
    }
}

/// What reading a function gives.
pub struct FuncParse {
    pub res: Result<FuncInfoV, Seq<DiagV>>,
    pub sh: SharedTypesV,
    /// The attributes the function keeps
    pub attrs: Seq<Attr>,
    /// The attributes each argument keeps, when the arguments were read
    pub arg_attrs: Option<Seq<Seq<Attr>>>,
}

/// The diagnostics on the function's visibility, asyncness and `#[event]` marker; the
/// attributes left once `#[event]` is taken out; and the kind of the function.
pub open spec fn spec_func_prologue(sig: Signature, vis_public: bool, attrs: Seq<Attr>, is_object: bool)
    -> (Seq<DiagV>, Seq<Attr>, FuncType)
{
    let d0: Seq<DiagV> = if !vis_public {
        seq![(sig.span, "Only public functions and impl blocks are allowed inside a `mod` tagged with `#[varnish::vmod]`. Add `pub` or move this function outside of this mod."@)]
    } else if sig.is_async {
        seq![(sig.span, "async functions are not supported"@)]
    } else {
        seq![]
    };
    let (a1, ev) = spec_remove_attr(attrs, "event"@);
    let d1 = match ev {
        Some(e) => if is_object { d0.push((e.span, "Event functions are not supported for object methods"@)) } else { d0 },
        None => d0,
    };
    (d1, a1, spec_func_type(ev is Some, is_object, sig.ident@))
}

/// The diagnostic on `unsafe`: only functions returning a raw VCL type may be `unsafe`; such a
/// function need not be.
pub open spec fn spec_unsafe_diags(span: SpanId, is_unsafe: bool, out_vcl: bool) -> Seq<DiagV> {
    if is_unsafe && !out_vcl {
        seq![(span, "functions and methods must not be tagged as `unsafe` unless they return a VCL_* type"@)]
    } else {
        seq![]
    }
}

pub open spec fn spec_func_parse(sh: SharedTypesV, sig: Signature, vis_public: bool, attrs: Seq<Attr>, is_object: bool) -> FuncParse {
    let (d1, a1, ft) = spec_func_prologue(sig, vis_public, attrs, is_object);
    match spec_func_output(sig.output, ft) {
        Err(d) => FuncParse { res: Err(d), sh, attrs: a1, arg_attrs: None },
        Ok((out, out_result)) => {
            let fold = args_fold(sh, spec_new_status(ft), sig.inputs@);
            let has_opt = exists|i: int| 0 <= i < fold.infos.len() && #[trigger] is_optional_arg(fold.infos[i]);
            let d2 = d1 + fold.diags + spec_unsafe_diags(sig.span, sig.is_unsafe, out is VclType);
            FuncParse {
                res: if d2.len() > 0 {
                    Err(d2)
                } else {
                    Ok((ft, sig.ident@, spec_doc_str(a1), has_opt, fold.infos, out, out_result))
                },
                sh: fold.sh,
                attrs: a1,
                arg_attrs: Some(fold.attrs),
            }
        },
    }
}

/// `b` is `a` with only the attributes of its arguments changed, to `attrs` when given.
pub open spec fn sig_after(a: Signature, b: Signature, attrs: Option<Seq<Seq<Attr>>>) -> bool {
    &&& a.ident == b.ident && a.is_async == b.is_async && a.is_unsafe == b.is_unsafe
    &&& a.output == b.output && a.span == b.span
    &&& a.inputs@.len() == b.inputs@.len()
    &&& forall|i: int| 0 <= i < a.inputs@.len() ==> same_but_attrs(#[trigger] a.inputs@[i], b.inputs@[i])
    &&& match attrs {
        Some(at) => at.len() == b.inputs@.len() && forall|i: int| 0 <= i < b.inputs@.len()
            ==> fn_arg_attrs(#[trigger] b.inputs@[i]) == at[i],
        None => a.inputs == b.inputs,
    }
}

/// Reads the arguments, argument after argument.
fn parse_args(
    shared_types: &mut SharedTypes,
    status: &mut FuncStatus,
    inputs: &mut Vec<FnArg>,
    errors: &mut Errors,
) -> (args: Vec<ParamTypeInfo>)
    ensures
        ({
            let fold = args_fold(shared_view(*old(shared_types)), *old(status), old(inputs)@);
            &&& infos_view(args@) == fold.infos
            &&& final(errors)@ == old(errors)@ + fold.diags
            &&& shared_view(*final(shared_types)) == fold.sh
            &&& *final(status) == fold.status
            &&& final(inputs)@.len() == old(inputs)@.len()
            &&& forall|i: int| 0 <= i < old(inputs)@.len() ==> same_but_attrs(#[trigger] old(inputs)@[i], final(inputs)@[i])
            &&& fold.attrs.len() == final(inputs)@.len()
            &&& forall|i: int| 0 <= i < final(inputs)@.len() ==> fn_arg_attrs(#[trigger] final(inputs)@[i]) == fold.attrs[i]
        }),
{
    let ghost sh0 = shared_view(*shared_types);
    let ghost st0 = *status;
    let ghost orig = inputs@;
    let ghost e0 = errors@;
    let mut args: Vec<ParamTypeInfo> = Vec::new();
    let mut idx: usize = 0;
    while idx < inputs.len()
        invariant
            idx <= inputs@.len(),
            inputs@.len() == orig.len(),
            forall|i: int| idx <= i < orig.len() ==> #[trigger] inputs@[i] == orig[i],
            forall|i: int| 0 <= i < idx ==> same_but_attrs(#[trigger] orig[i], inputs@[i]),
            ({
                let fold = args_fold(sh0, st0, orig.take(idx as int));
                &&& infos_view(args@) == fold.infos
                &&& errors@ == e0 + fold.diags
                &&& shared_view(*shared_types) == fold.sh
                &&& *status == fold.status
                &&& fold.attrs.len() == idx
                &&& forall|i: int| 0 <= i < idx ==> fn_arg_attrs(#[trigger] inputs@[i]) == fold.attrs[i]
            }),
        decreases orig.len() - idx,
    {
        let ghost prev = args_fold(sh0, st0, orig.take(idx as int));
        proof {
            assert(orig.take(idx + 1).drop_last() =~= orig.take(idx as int));
            assert(orig.take(idx + 1).last() == orig[idx as int]);
        }
        let ghost before_args = args@;
        let ghost before_inputs = inputs@;
        let r = ParamTypeInfo::parse(shared_types, status, idx, &mut inputs[idx]);
        let ghost e1 = errors@;
        match errors.on_err(r) {
            Some(a) => {
                args.push(a);
            },
            None => {},
        }
        proof {
            let fold = args_fold(sh0, st0, orig.take(idx + 1));
            assert(infos_view(args@) =~= fold.infos);
            assert(errors@ =~= e0 + fold.diags);
            assert forall|i: int| 0 <= i < idx + 1 implies fn_arg_attrs(#[trigger] inputs@[i]) == fold.attrs[i] by {
                if i < idx {
                    assert(inputs@[i] == before_inputs[i]);
                }
            }
            assert forall|i: int| 0 <= i < idx + 1 implies same_but_attrs(#[trigger] orig[i], inputs@[i]) by {
                if i < idx {
                    assert(inputs@[i] == before_inputs[i]);
                }
            }
        }
        idx = idx + 1;
    }
    assert(orig.take(orig.len() as int) =~= orig);
    args
}

/// The checks on the function's visibility, asyncness and `#[event]` marker, and its kind.
fn func_prologue(signature: &Signature, vis_public: bool, attrs: &mut Vec<Attr>, is_object: bool, errors: &mut Errors) -> (ft: FuncType)
    requires
        old(errors)@.len() == 0,
    ensures
        (final(errors)@, final(attrs)@, ft) == spec_func_prologue(*signature, vis_public, old(attrs)@, is_object),
{
    if !vis_public {
        errors.add(signature.span, "Only public functions and impl blocks are allowed inside a `mod` tagged with `#[varnish::vmod]`. Add `pub` or move this function outside of this mod.");
    } else if signature.is_async {
        errors.add(signature.span, "async functions are not supported");
    }
    if let Some(attr) = remove_attr(attrs, "event") {
        if is_object {
            errors.add(attr.span, "Event functions are not supported for object methods");
        }
        FuncType::Event
    } else if is_object {
        if str_eq(signature.ident.as_str(), "new") {
            FuncType::Constructor
        } else {
            FuncType::Method
        }
    } else {
        FuncType::Function
    }
}

/// The output type and whether the function returns a `Result`.
fn func_output(output: &Option<Ty>, func_type: FuncType) -> (r: ProcResult<(OutputTy, bool)>)
    ensures
        res_view(r, |x: (OutputTy, bool)| (output_ty_view(x.0), x.1)) == spec_func_output(*output, func_type),
        r matches Ok(x) ==> output_ty_wf(x.0),
{
    match output {
        None => Ok((OutputTy::Default, false)),
        Some(ty) => {
            if let Some(ok) = as_result_type(ty) {
                Ok((OutputTy::parse(ok, func_type)?, true))
            } else {
                Ok((OutputTy::parse(ty, func_type)?, false))
            }
        },
    }
}

impl FuncInfo {
    /// Parse a function or a method signature.
    #[verifier::spinoff_prover]
    #[verifier::rlimit(50)]
    pub fn parse(
        shared_types: &mut SharedTypes,
        signature: &mut Signature,
        vis_public: bool,
        attrs: &mut Vec<Attr>,
        is_object: bool,
    ) -> (r: ProcResult<Self>)
        ensures
            ({
                let p = spec_func_parse(shared_view(*old(shared_types)), *old(signature), vis_public, old(attrs)@, is_object);
                &&& res_view(r, |f: FuncInfo| func_info_view(f)) == p.res
                &&& shared_view(*final(shared_types)) == p.sh
                &&& final(attrs)@ == p.attrs
                &&& sig_after(*old(signature), *final(signature), p.arg_attrs)
            }),
            r matches Ok(f) ==> output_ty_wf(f.output_ty),
    {
        let mut errors = Errors::new();
        let func_type = func_prologue(signature, vis_public, attrs, is_object, &mut errors);
        let (output_ty, out_result) = func_output(&signature.output, func_type)?;
        let mut status = FuncStatus::new(func_type);
        let args = parse_args(shared_types, &mut status, &mut signature.inputs, &mut errors);
        let has_optional_args = any_optional(&args);
        let out_vcl = matches!(output_ty, OutputTy::VclType(..));
        let ghost d15 = errors@;
        if signature.is_unsafe && !out_vcl {
            errors.add(signature.span, "functions and methods must not be tagged as `unsafe` unless they return a VCL_* type");
        }
        assert(errors@ =~= d15 + spec_unsafe_diags(signature.span, signature.is_unsafe, out_vcl));
        errors.into_result()?;
        let docs = parse_doc_str(attrs);
        let ident = signature.ident.clone();
        Ok(FuncInfo { func_type, ident, docs, has_optional_args, args, output_ty, out_result })
    }
}

/// Whether some argument is a value argument declared with `Option<...>`.
fn any_optional(args: &Vec<ParamTypeInfo>) -> (r: bool)
    ensures
        r == exists|i: int| 0 <= i < args@.len() && #[trigger] is_optional_arg(
            infos_view(args@)[i]),
{
    let ghost v = infos_view(args@);
    let mut i: usize = 0;
    while i < args.len()
        invariant
            i <= args.len(),
            v == infos_view(args@),
            forall|j: int| 0 <= j < i ==> !#[trigger] is_optional_arg(v[j]),
        decreases args.len() - i,
    {
        if let ParamType::Value(p) = &args[i].ty {
            if matches!(p.kind, ParamKind::Optional) {
                assert(is_optional_arg(v[i as int]));
                return true;
            }
        }
        assert(!is_optional_arg(v[i as int]));
        i = i + 1;
    }
    false
}

// ---------------------------------------------------------------------------------------------
// Objects

/// A member of an `impl` block.
#[derive(Debug)]
pub enum ImplMember {
    Fn(FnItem),
    Other,
}

/// An `impl` block.
#[derive(Debug)]
pub struct ImplBlock {
    /// `impl Trait for Type`
    pub has_trait: bool,
    /// The span of the generic parameters, when there are any
    pub generics: Option<SpanId>,
    pub self_ty: Ty,
    pub items: Vec<ImplMember>,
    pub attrs: Vec<Attr>,
    pub span: SpanId,
}

/// The view of an [`ObjInfo`]: name, docs, constructor, destructor, methods.
pub type ObjInfoV = (Seq<char>, Seq<char>, FuncInfoV, FuncInfoV, Seq<FuncInfoV>);

pub open spec fn funcs_view(s: Seq<FuncInfo>) -> Seq<FuncInfoV> {
    s.map_values(|f: FuncInfo| func_info_view(f))
}

pub open spec fn obj_info_view(o: ObjInfo) -> ObjInfoV {
    (o.ident@, o.docs@, func_info_view(o.constructor), func_info_view(o.destructor), funcs_view(o.funcs@))
}

/// The destructor every object gets.
pub open spec fn destructor_view() -> FuncInfoV {
    (FuncType::Destructor, "_fini"@, Seq::empty(), false, Seq::empty(), OutputTyV::Default, false)
}

/// What reading the members of an `impl` block gives, member after member.
pub struct ObjFold {
    pub funcs: Seq<FuncInfoV>,
    pub ctor: Option<FuncInfoV>,
    pub diags: Seq<DiagV>,
    pub sh: SharedTypesV,
    /// For each function member, what reading it gave
    pub outs: Seq<Option<FuncParse>>,
}

pub open spec fn obj_fold(sh0: SharedTypesV, members: Seq<ImplMember>) -> ObjFold
    decreases members.len(),
{
    if members.len() == 0 {
        ObjFold { funcs: seq![], ctor: None, diags: seq![], sh: sh0, outs: seq![] }
    } else {
        let prev = obj_fold(sh0, members.drop_last());
        match members.last() {
            ImplMember::Fn(f) => {
                let p = spec_func_parse(prev.sh, f.sig, f.vis_public, f.attrs@, true);
                match p.res {
                    Err(d) => ObjFold { diags: prev.diags + d, sh: p.sh, outs: prev.outs.push(Some(p)), ..prev },
                    Ok(fi) => if fi.1 == "new"@ {
                        ObjFold { ctor: Some(fi), sh: p.sh, outs: prev.outs.push(Some(p)), ..prev }
                    } else {
                        ObjFold { funcs: prev.funcs.push(fi), sh: p.sh, outs: prev.outs.push(Some(p)), ..prev }
                    },
                }
            },
            ImplMember::Other => ObjFold { outs: prev.outs.push(None), ..prev },
        }
    }
}

/// `b` is the member `a` once read, reading it having given `out`.
pub open spec fn member_after(a: ImplMember, b: ImplMember, out: Option<FuncParse>) -> bool {
    match (a, b) {
        (ImplMember::Fn(x), ImplMember::Fn(y)) => match out {
            Some(p) => x.vis_public == y.vis_public && y.attrs@ == p.attrs && sig_after(x.sig, y.sig, p.arg_attrs),
            None => false,
        },
        (ImplMember::Other, ImplMember::Other) => out is None,
        _ => false,
    }
}

/// What reading an object gives.
pub struct ObjParse {
    pub res: Result<ObjInfoV, Seq<DiagV>>,
    pub sh: SharedTypesV,
    pub outs: Seq<Option<FuncParse>>,
}

pub open spec fn spec_obj_parse(sh: SharedTypesV, imp: ImplBlock) -> ObjParse {
    let ident = spec_simple_ident(imp.self_ty);
    let d0: Seq<DiagV> = if imp.has_trait {
        seq![(imp.span, "Trait impls are not supported for object impls"@)]
    } else if imp.generics is Some {
        seq![(imp.generics.unwrap(), "Generics are not supported for object impls"@)]
    } else if ident is None {
        seq![(imp.self_ty.span, "Expected a simple type for object. If the object is defined elsewhere, use `use` to import it."@)]
    } else {
        seq![]
    };
    let fold = obj_fold(sh, imp.items@);
    let d1 = d0 + fold.diags + if fold.ctor is None {
        seq![(imp.self_ty.span, "Object must have a constructor called `new`"@)]
    } else {
        seq![]
    };
    ObjParse {
        res: if d1.len() > 0 {
            Err(d1)
        } else {
            Ok((ident.unwrap(), spec_doc_str(imp.attrs@), fold.ctor.unwrap(), destructor_view(), fold.funcs))
        },
        sh: fold.sh,
        outs: fold.outs,
    }
}

/// The items of `b` are those of `a` once read, reading them having given `outs`.
pub open spec fn members_after(a: Seq<ImplMember>, b: Seq<ImplMember>, outs: Seq<Option<FuncParse>>) -> bool {
    &&& a.len() == b.len() && outs.len() == a.len()
    &&& forall|i: int| 0 <= i < a.len() ==> member_after(#[trigger] a[i], b[i], outs[i])
}

/// Reads the members of an `impl` block, member after member.
fn parse_members(
    shared_types: &mut SharedTypes,
    items: &mut Vec<ImplMember>,
    errors: &mut Errors,
) -> (r: (Vec<FuncInfo>, Option<FuncInfo>))
    ensures
        ({
            let fold = obj_fold(shared_view(*old(shared_types)), old(items)@);
            &&& funcs_view(r.0@) == fold.funcs
            &&& match r.1 {
                Some(c) => fold.ctor == Some(func_info_view(c)) && output_ty_wf(c.output_ty),
                None => fold.ctor is None,
            }
            &&& final(errors)@ == old(errors)@ + fold.diags
            &&& shared_view(*final(shared_types)) == fold.sh
            &&& members_after(old(items)@, final(items)@, fold.outs)
        }),
        forall|i: int| 0 <= i < r.0@.len() ==> output_ty_wf(#[trigger] r.0@[i].output_ty),
{
    let ghost sh0 = shared_view(*shared_types);
    let ghost orig = items@;
    let ghost e0 = errors@;
    let mut funcs: Vec<FuncInfo> = Vec::new();
    let mut constructor: Option<FuncInfo> = None;
    let mut k: usize = 0;
    while k < items.len()
        invariant
            k <= items@.len(),
            items@.len() == orig.len(),
            forall|i: int| k <= i < orig.len() ==> #[trigger] items@[i] == orig[i],
            ({
                let fold = obj_fold(sh0, orig.take(k as int));
                &&& funcs_view(funcs@) == fold.funcs
                &&& match constructor {
                    Some(c) => fold.ctor == Some(func_info_view(c)) && output_ty_wf(c.output_ty),
                    None => fold.ctor is None,
                }
                &&& errors@ == e0 + fold.diags
                &&& shared_view(*shared_types) == fold.sh
                &&& fold.outs.len() == k
                &&& forall|i: int| 0 <= i < k ==> member_after(#[trigger] orig[i], items@[i], fold.outs[i])
            }),
            forall|i: int| 0 <= i < funcs@.len() ==> output_ty_wf(#[trigger] funcs@[i].output_ty),
        decreases orig.len() - k,
    {
        proof {
            assert(orig.take(k + 1).drop_last() =~= orig.take(k as int));
            assert(orig.take(k + 1).last() == orig[k as int]);
        }
        let ghost before_items = items@;
        let ghost before_funcs = funcs@;
        let ghost e1 = errors@;
        match &mut items[k] {
            ImplMember::Fn(f) => {
                let r = FuncInfo::parse(shared_types, &mut f.sig, f.vis_public, &mut f.attrs, true);
                match errors.on_err(r) {
                    Some(func) => {
                        if str_eq(func.ident.as_str(), "new") {
                            constructor = Some(func);
                        } else {
                            funcs.push(func);
                            assert(funcs_view(funcs@) =~= funcs_view(before_funcs).push(func_info_view(func)));
                        }
                    },
                    None => {},
                }
            },
            ImplMember::Other => {},
        }
        proof {
            let fold = obj_fold(sh0, orig.take(k + 1));
            assert(errors@ =~= e0 + fold.diags);
            assert forall|i: int| 0 <= i < k + 1 implies member_after(#[trigger] orig[i], items@[i], fold.outs[i]) by {
                if i < k {
                    assert(items@[i] == before_items[i]);
                }
            }
        }
        k = k + 1;
    }
    assert(orig.take(orig.len() as int) =~= orig);
    (funcs, constructor)
}

impl ObjInfo {
    /// Parse an `impl` block and treat all public functions as object methods.
    #[verifier::spinoff_prover]
    #[verifier::rlimit(50)]
    pub fn parse(item_impl: &mut ImplBlock, shared_types: &mut SharedTypes) -> (r: ProcResult<Self>)
        ensures
            ({
                let p = spec_obj_parse(shared_view(*old(shared_types)), *old(item_impl));
                &&& res_view(r, |o: ObjInfo| obj_info_view(o)) == p.res
                &&& shared_view(*final(shared_types)) == p.sh
                &&& members_after(old(item_impl).items@, final(item_impl).items@, p.outs)
            }),
            final(item_impl).has_trait == old(item_impl).has_trait,
            final(item_impl).generics == old(item_impl).generics,
            final(item_impl).self_ty == old(item_impl).self_ty,
            final(item_impl).attrs == old(item_impl).attrs,
            final(item_impl).span == old(item_impl).span,
            r matches Ok(o) ==> obj_output_wf(o),
    {
        let mut errors = Errors::new();
        let ident = match as_simple_ty(&item_impl.self_ty) {
            Some(i) => Some(i.clone()),
            None => None,
        };
        if item_impl.has_trait {
            errors.add(item_impl.span, "Trait impls are not supported for object impls");
        } else if let Some(g) = item_impl.generics {
            errors.add(g, "Generics are not supported for object impls");
        } else if ident.is_none() {
            errors.add(item_impl.self_ty.span, "Expected a simple type for object. If the object is defined elsewhere, use `use` to import it.");
        }
        let ghost d0 = errors@;
        let (funcs, constructor) = parse_members(shared_types, &mut item_impl.items, &mut errors);
        if constructor.is_none() {
            errors.add(item_impl.self_ty.span, "Object must have a constructor called `new`");
        }
        proof {
            let fold = obj_fold(shared_view(*old(shared_types)), old(item_impl).items@);
            let tail: Seq<DiagV> = if fold.ctor is None {
                seq![(item_impl.self_ty.span, "Object must have a constructor called `new`"@)]
            } else {
                seq![]
            };
            assert(errors@ =~= d0 + fold.diags + tail);
        }
        errors.into_result()?;
        let (ident, constructor) = match (ident, constructor) {
            (Some(i), Some(c)) => (i, c),
            _ => {
                return Err(Errors::new());
            },
        };
        let docs = parse_doc_str(&item_impl.attrs);
        let destructor = FuncInfo {
            func_type: FuncType::Destructor,
            ident: "_fini".to_owned(),
            docs: String::new(),
            has_optional_args: false,
            args: Vec::new(),
            output_ty: OutputTy::Default,
            out_result: false,
        };
        proof {
            assert(infos_view(destructor.args@) =~= Seq::<ParamTypeInfoV>::empty());
        }
        Ok(ObjInfo { ident, docs, constructor, destructor, funcs })
    }
}

/// Every output type of the object's functions is well formed.
pub open spec fn obj_output_wf(o: ObjInfo) -> bool {
    &&& output_ty_wf(o.constructor.output_ty)
    &&& output_ty_wf(o.destructor.output_ty)
    &&& forall|i: int| 0 <= i < o.funcs@.len() ==> output_ty_wf(#[trigger] o.funcs@[i].output_ty)
}

// ---------------------------------------------------------------------------------------------
// The module

/// An item of the user's `mod`.
#[derive(Debug)]
pub enum ItemKind {
    Fn(FnItem),
    Impl(ImplBlock),
    Use,
    Struct,
    Enum,
    Const,
    Macro,
    Mod,
    Static,
    Trait,
    TraitAlias,
    Type,
    Union,
    Other,
}

#[derive(Debug)]
pub struct Item {
    pub kind: ItemKind,
    pub span: SpanId,
}

/// The user's `mod` tagged with `#[vmod]`.
#[derive(Debug)]
pub struct ModItem {
    pub ident: String,
    pub attrs: Vec<Attr>,
    /// The items, for a `mod` with a body
    pub content: Option<Vec<Item>>,
    pub span: SpanId,
}

/// The message for an item kind that a VMOD `mod` may not hold.
pub open spec fn spec_item_not_allowed(typ: Seq<char>) -> Seq<char> {
    typ + " are not allowed inside a `mod` tagged with `#[varnish::vmod]`.  Move it to an outer scope and keep just the `impl` block. More than one `impl` blocks are allowed."@
}

pub fn err_msg_item_not_allowed(typ: &str) -> (r: String)
    ensures
        r@ == spec_item_not_allowed(typ@),
{
    crate::text::cat(typ, " are not allowed inside a `mod` tagged with `#[varnish::vmod]`.  Move it to an outer scope and keep just the `impl` block. More than one `impl` blocks are allowed.")
}

/// The diagnostic an item that is neither a function nor an `impl` block gets, if any: `use`
/// items and structs (the types of the objects) stay without one.
pub open spec fn spec_item_diag(k: ItemKind) -> Option<Seq<char>> {
    match k {
        ItemKind::Enum => Some(spec_item_not_allowed("Enums"@)),
        ItemKind::Const => Some("Constants are not allowed in a `mod` tagged with `#[varnish::vmod]"@),
        ItemKind::Macro => Some("Macros are not allowed in a `mod` tagged with `#[varnish::vmod]"@),
        ItemKind::Mod => Some("Nested modules are not allowed in a `mod` tagged with `#[varnish::vmod]"@),
        ItemKind::Static => Some("Static variables are not allowed in a `mod` tagged with `#[varnish::vmod]"@),
        ItemKind::Trait => Some("Traits are not allowed in a `mod` tagged with `#[varnish::vmod]"@),
        ItemKind::TraitAlias => Some("Trait aliases are not allowed in a `mod` tagged with `#[varnish::vmod]"@),
        ItemKind::Type => Some("Type aliases are not allowed in a `mod` tagged with `#[varnish::vmod]"@),
        ItemKind::Union => Some("Unions are not allowed in a `mod` tagged with `#[varnish::vmod]"@),
        ItemKind::Other => Some("Only functions and impl blocks are allowed inside a `mod` tagged with `#[varnish::vmod]`"@),
        _ => None,
    }
}

/// What reading an item gave.
pub enum ItemOut {
    Func(FuncParse),
    Obj(ObjParse),
    Unchanged,
}

/// What reading the items of the module gives, item after item.
pub struct ModFold {
    pub funcs: Seq<FuncInfoV>,
    pub objects: Seq<ObjInfoV>,
    pub diags: Seq<DiagV>,
    pub sh: SharedTypesV,
    pub outs: Seq<ItemOut>,
}

pub open spec fn mod_fold(sh0: SharedTypesV, items: Seq<Item>) -> ModFold
    decreases items.len(),
{
    if items.len() == 0 {
        ModFold { funcs: seq![], objects: seq![], diags: seq![], sh: sh0, outs: seq![] }
    } else {
        let prev = mod_fold(sh0, items.drop_last());
        let it = items.last();
        match it.kind {
            ItemKind::Fn(f) => {
                let p = spec_func_parse(prev.sh, f.sig, f.vis_public, f.attrs@, false);
                match p.res {
                    Err(d) => ModFold { diags: prev.diags + d, sh: p.sh, outs: prev.outs.push(ItemOut::Func(p)), ..prev },
                    Ok(fi) => ModFold { funcs: prev.funcs.push(fi), sh: p.sh, outs: prev.outs.push(ItemOut::Func(p)), ..prev },
                }
            },
            ItemKind::Impl(imp) => {
                let p = spec_obj_parse(prev.sh, imp);
                match p.res {
                    Err(d) => ModFold { diags: prev.diags + d, sh: p.sh, outs: prev.outs.push(ItemOut::Obj(p)), ..prev },
                    Ok(o) => ModFold { objects: prev.objects.push(o), sh: p.sh, outs: prev.outs.push(ItemOut::Obj(p)), ..prev },
                }
            },
            _ => match spec_item_diag(it.kind) {
                Some(m) => ModFold { diags: prev.diags.push((it.span, m)), outs: prev.outs.push(ItemOut::Unchanged), ..prev },
                None => ModFold { outs: prev.outs.push(ItemOut::Unchanged), ..prev },
            },
        }
    }
}

/// `b` is the item `a` once read, reading it having given `out`.
pub open spec fn item_after(a: Item, b: Item, out: ItemOut) -> bool {
    &&& a.span == b.span
    &&& match (a.kind, b.kind) {
        (ItemKind::Fn(x), ItemKind::Fn(y)) => match out {
            ItemOut::Func(p) => x.vis_public == y.vis_public && y.attrs@ == p.attrs && sig_after(x.sig, y.sig, p.arg_attrs),
            _ => false,
        },
        (ItemKind::Impl(x), ItemKind::Impl(y)) => match out {
            ItemOut::Obj(p) => x.has_trait == y.has_trait && x.generics == y.generics && x.self_ty == y.self_ty
                && x.attrs == y.attrs && x.span == y.span && members_after(x.items@, y.items@, p.outs),
            _ => false,
        },
        _ => out is Unchanged && a.kind == b.kind,
    }
}

/// The view of a [`VmodInfo`]: its `docs` parameter, name, docs, functions, objects and shared
/// types.
pub type VmodInfoV = (Option<Seq<char>>, Seq<char>, Seq<char>, Seq<FuncInfoV>, Seq<ObjInfoV>, SharedTypesV);

pub open spec fn objects_view(s: Seq<ObjInfo>) -> Seq<ObjInfoV> {
    s.map_values(|o: ObjInfo| obj_info_view(o))
}

pub open spec fn vmod_info_view(v: VmodInfo) -> VmodInfoV {
    (crate::parser_args::opt_str_view(v.params.docs), v.ident@, v.docs@, funcs_view(v.funcs@),
        objects_view(v.objects@), shared_view(v.shared_types))
}

/// All the functions of an object: its methods, its constructor, its destructor.
pub open spec fn obj_funcs_v(o: ObjInfoV) -> Seq<FuncInfoV> {
    o.4 + seq![o.2, o.3]
}

pub open spec fn objs_funcs_v(os: Seq<ObjInfoV>) -> Seq<FuncInfoV>
    decreases os.len(),
{
    if os.len() == 0 {
        seq![]
    } else {
        objs_funcs_v(os.drop_last()) + obj_funcs_v(os.last())
    }
}

/// Number of event handlers among `fs`.
pub open spec fn count_events_v(fs: Seq<FuncInfoV>) -> nat
    decreases fs.len(),
{
    if fs.len() == 0 {
        0
    } else {
        count_events_v(fs.drop_last()) + if fs.last().0 is Event { 1nat } else { 0nat }
    }
}

pub open spec fn arg_selected_v(f: crate::model::ArgFilter, t: ParamTypeV) -> bool {
    match f {
        crate::model::ArgFilter::SharedPerVclMut => t is SharedPerVclMut,
        crate::model::ArgFilter::SharedPerVclRef => t is SharedPerVclRef,
        crate::model::ArgFilter::NeedsPerVcl => t is SharedPerVclMut || t is FetchFilters || t is DeliveryFilters,
    }
}

/// Some argument of `args` is one that `f` selects.
pub open spec fn args_have_v(args: Seq<ParamTypeInfoV>, f: crate::model::ArgFilter) -> bool
    decreases args.len(),
{
    args.len() > 0 && (args_have_v(args.drop_last(), f) || arg_selected_v(f, args.last().2))
}

/// Some function of `fs` has an argument that `f` selects.
pub open spec fn has_arg_v(fs: Seq<FuncInfoV>, f: crate::model::ArgFilter) -> bool
    decreases fs.len(),
{
    fs.len() > 0 && (has_arg_v(fs.drop_last(), f) || args_have_v(fs.last().4, f))
}

/// The diagnostics of the module-wide checks: one event handler at most, a state shared per VCL
/// load that something initializes when something reads it, and something to export.
pub open spec fn spec_validate(funcs: Seq<FuncInfoV>, objects: Seq<ObjInfoV>, span: SpanId, prior: Seq<DiagV>) -> Seq<DiagV> {
    let all = funcs + objs_funcs_v(objects);
    let d1 = prior + if count_events_v(all) > 1 {
        seq![(span, "More than one event handler found. Only one event handler is allowed"@)]
    } else {
        seq![]
    };
    let d2 = d1 + if has_arg_v(all, crate::model::ArgFilter::SharedPerVclRef)
        && !has_arg_v(all, crate::model::ArgFilter::SharedPerVclMut) {
        seq![(span, "#[shared_per_vcl] value has not been initialized. Add a `&mut Option<Box<...>>` param to an event handler or an object new() function"@)]
    } else {
        seq![]
    };
    d2 + if funcs.len() == 0 && objects.len() == 0 && d2.len() == 0 {
        seq![(CALL_SITE, "No functions or objects found in this module"@)]
    } else {
        seq![]
    }
}

/// What reading the module gives.
pub struct ModParse {
    pub res: Result<VmodInfoV, Seq<DiagV>>,
    /// What reading each item gave, when the module has a body
    pub outs: Option<Seq<ItemOut>>,
}

pub open spec fn spec_vmod_parse(params_docs: Option<Seq<char>>, m: ModItem) -> ModParse {
    let sh0: SharedTypesV = (None, None);
    let fold = match m.content {
        Some(items) => mod_fold(sh0, items@),
        None => ModFold { funcs: seq![], objects: seq![], diags: seq![], sh: sh0, outs: seq![] },
    };
    let d = spec_validate(fold.funcs, fold.objects, m.span, fold.diags);
    ModParse {
        res: if d.len() > 0 {
            Err(d)
        } else {
            Ok((params_docs, m.ident@, spec_doc_str(m.attrs@), fold.funcs, fold.objects, fold.sh))
        },
        outs: match m.content {
            Some(_) => Some(fold.outs),
            None => None,
        },
    }
}


/// The items of `b` are those of `a` once read, reading them having given `outs`.
pub open spec fn items_after(a: Seq<Item>, b: Seq<Item>, outs: Seq<ItemOut>) -> bool {
    &&& a.len() == b.len() && outs.len() == a.len()
    &&& forall|i: int| 0 <= i < a.len() ==> item_after(#[trigger] a[i], b[i], outs[i])
}

/// Reads the items of the module, item after item.
#[verifier::rlimit(40)]
fn parse_items(
    shared_types: &mut SharedTypes,
    items: &mut Vec<Item>,
    errors: &mut Errors,
) -> (r: (Vec<FuncInfo>, Vec<ObjInfo>))
    ensures
        ({
            let fold = mod_fold(shared_view(*old(shared_types)), old(items)@);
            &&& funcs_view(r.0@) == fold.funcs
            &&& objects_view(r.1@) == fold.objects
            &&& final(errors)@ == old(errors)@ + fold.diags
            &&& shared_view(*final(shared_types)) == fold.sh
            &&& items_after(old(items)@, final(items)@, fold.outs)
        }),
        forall|i: int| 0 <= i < r.0@.len() ==> output_ty_wf(#[trigger] r.0@[i].output_ty),
        forall|i: int| 0 <= i < r.1@.len() ==> obj_output_wf(#[trigger] r.1@[i]),
{
    let ghost sh0 = shared_view(*shared_types);
    let ghost orig = items@;
    let ghost e0 = errors@;
    let mut funcs: Vec<FuncInfo> = Vec::new();
    let mut objects: Vec<ObjInfo> = Vec::new();
    let mut k: usize = 0;
    while k < items.len()
        invariant
            k <= items@.len(),
            items@.len() == orig.len(),
            forall|i: int| k <= i < orig.len() ==> #[trigger] items@[i] == orig[i],
            ({
                let fold = mod_fold(sh0, orig.take(k as int));
                &&& funcs_view(funcs@) == fold.funcs
                &&& objects_view(objects@) == fold.objects
                &&& errors@ == e0 + fold.diags
                &&& shared_view(*shared_types) == fold.sh
                &&& fold.outs.len() == k
                &&& forall|i: int| 0 <= i < k ==> item_after(#[trigger] orig[i], items@[i], fold.outs[i])
            }),
            forall|i: int| 0 <= i < funcs@.len() ==> output_ty_wf(#[trigger] funcs@[i].output_ty),
            forall|i: int| 0 <= i < objects@.len() ==> obj_output_wf(#[trigger] objects@[i]),
        decreases orig.len() - k,
    {
        proof {
            assert(orig.take(k + 1).drop_last() =~= orig.take(k as int));
            assert(orig.take(k + 1).last() == orig[k as int]);
        }
        let ghost before_items = items@;
        let ghost before_funcs = funcs@;
        let ghost before_objects = objects@;
        let span = items[k].span;
        match &mut items[k].kind {
            ItemKind::Fn(f) => {
                let r = FuncInfo::parse(shared_types, &mut f.sig, f.vis_public, &mut f.attrs, false);
                match errors.on_err(r) {
                    Some(func) => {
                        funcs.push(func);
                        assert(funcs_view(funcs@) =~= funcs_view(before_funcs).push(func_info_view(func)));
                    },
                    None => {},
                }
            },
            ItemKind::Impl(imp) => {
                let r = ObjInfo::parse(imp, shared_types);
                match errors.on_err(r) {
                    Some(obj) => {
                        objects.push(obj);
                        assert(objects_view(objects@) =~= objects_view(before_objects).push(obj_info_view(obj)));
                    },
                    None => {},
                }
            },
            ItemKind::Use => {},
            ItemKind::Struct => {},
            ItemKind::Enum => {
                let m = err_msg_item_not_allowed("Enums");
                errors.add(span, m.as_str());
            },
            ItemKind::Const => {
                errors.add(span, "Constants are not allowed in a `mod` tagged with `#[varnish::vmod]");
            },
            ItemKind::Macro => {
                errors.add(span, "Macros are not allowed in a `mod` tagged with `#[varnish::vmod]");
            },
            ItemKind::Mod => {
                errors.add(span, "Nested modules are not allowed in a `mod` tagged with `#[varnish::vmod]");
            },
            ItemKind::Static => {
                errors.add(span, "Static variables are not allowed in a `mod` tagged with `#[varnish::vmod]");
            },
            ItemKind::Trait => {
                errors.add(span, "Traits are not allowed in a `mod` tagged with `#[varnish::vmod]");
            },
            ItemKind::TraitAlias => {
                errors.add(span, "Trait aliases are not allowed in a `mod` tagged with `#[varnish::vmod]");
            },
            ItemKind::Type => {
                errors.add(span, "Type aliases are not allowed in a `mod` tagged with `#[varnish::vmod]");
            },
            ItemKind::Union => {
                errors.add(span, "Unions are not allowed in a `mod` tagged with `#[varnish::vmod]");
            },
            ItemKind::Other => {
                errors.add(span, "Only functions and impl blocks are allowed inside a `mod` tagged with `#[varnish::vmod]`");
            },
        }
        proof {
            let fold = mod_fold(sh0, orig.take(k + 1));
            assert(errors@ =~= e0 + fold.diags);
            assert forall|i: int| 0 <= i < k + 1 implies item_after(#[trigger] orig[i], items@[i], fold.outs[i]) by {
                if i < k {
                    assert(items@[i] == before_items[i]);
                }
            }
        }
        k = k + 1;
    }
    assert(orig.take(orig.len() as int) =~= orig);
    (funcs, objects)
}

/// `n`, or 2 when it is larger: enough to tell whether there is more than one.
pub open spec fn cap2(n: nat) -> nat {
    if n > 2 { 2 } else { n }
}

proof fn lemma_count_events_concat(a: Seq<FuncInfoV>, b: Seq<FuncInfoV>)
    ensures
        count_events_v(a + b) == count_events_v(a) + count_events_v(b),
    decreases b.len(),
{
    if b.len() == 0 {
        assert(a + b =~= a);
    } else {
        lemma_count_events_concat(a, b.drop_last());
        assert((a + b).drop_last() =~= a + b.drop_last());
    }
}

/// What the module-wide checks need to know of the functions seen so far.
struct Scan {
    events: u8,
    has_ref: bool,
    has_mut: bool,
}

spec fn scan_matches(s: Scan, fs: Seq<FuncInfoV>) -> bool {
    &&& s.events == cap2(count_events_v(fs))
    &&& s.has_ref == has_arg_v(fs, crate::model::ArgFilter::SharedPerVclRef)
    &&& s.has_mut == has_arg_v(fs, crate::model::ArgFilter::SharedPerVclMut)
}

/// Whether some argument of `args` is one that `f` selects.
fn args_have(args: &Vec<ParamTypeInfo>, f: crate::model::ArgFilter) -> (r: bool)
    ensures
        r == args_have_v(infos_view(args@), f),
{
    let ghost v = infos_view(args@);
    let mut found = false;
    let mut i: usize = 0;
    while i < args.len()
        invariant
            i <= args.len(),
            v == infos_view(args@),
            found == args_have_v(v.take(i as int), f),
        decreases args.len() - i,
    {
        assert(v.take(i + 1).drop_last() =~= v.take(i as int));
        let sel = match f {
            crate::model::ArgFilter::SharedPerVclMut => matches!(args[i].ty, ParamType::SharedPerVclMut),
            crate::model::ArgFilter::SharedPerVclRef => matches!(args[i].ty, ParamType::SharedPerVclRef),
            crate::model::ArgFilter::NeedsPerVcl => matches!(
                args[i].ty,
                ParamType::SharedPerVclMut | ParamType::FetchFilters | ParamType::DeliveryFilters
            ),
        };
        found = found || sel;
        i = i + 1;
    }
    assert(v.take(args.len() as int) =~= v);
    found
}

fn scan_one(s: Scan, fi: &FuncInfo, Ghost(fs): Ghost<Seq<FuncInfoV>>) -> (r: Scan)
    requires
        scan_matches(s, fs),
    ensures
        scan_matches(r, fs.push(func_info_view(*fi))),
{
    let is_event = matches!(fi.func_type, FuncType::Event);
    let events = if is_event && s.events < 2 { s.events + 1 } else { s.events };
    let has_ref = s.has_ref || args_have(&fi.args, crate::model::ArgFilter::SharedPerVclRef);
    let has_mut = s.has_mut || args_have(&fi.args, crate::model::ArgFilter::SharedPerVclMut);
    assert(fs.push(func_info_view(*fi)).drop_last() =~= fs);
    Scan { events, has_ref, has_mut }
}

fn scan_funcs(s: Scan, v: &Vec<FuncInfo>, Ghost(pre): Ghost<Seq<FuncInfoV>>) -> (r: Scan)
    requires
        scan_matches(s, pre),
    ensures
        scan_matches(r, pre + funcs_view(v@)),
{
    let mut s = s;
    let mut i: usize = 0;
    while i < v.len()
        invariant
            i <= v.len(),
            scan_matches(s, pre + funcs_view(v@.take(i as int))),
        decreases v.len() - i,
    {
        let ghost done = pre + funcs_view(v@.take(i as int));
        s = scan_one(s, &v[i], Ghost(done));
        assert(done.push(func_info_view(v@[i as int])) =~= pre + funcs_view(v@.take(i + 1)));
        i = i + 1;
    }
    assert(v@.take(v.len() as int) =~= v@);
    s
}

/// Runs the module-wide checks: one event handler at most, a state shared per VCL load that
/// something initializes when something reads it, and something to export.
fn validate(funcs: &Vec<FuncInfo>, objects: &Vec<ObjInfo>, span: SpanId, errors: &mut Errors)
    ensures
        final(errors)@ == spec_validate(funcs_view(funcs@), objects_view(objects@), span, old(errors)@),
{
    let ghost fv = funcs_view(funcs@);
    let ghost ov = objects_view(objects@);
    let s0 = Scan { events: 0, has_ref: false, has_mut: false };
    assert(scan_matches(s0, Seq::<FuncInfoV>::empty()));
    let mut s = scan_funcs(s0, funcs, Ghost(Seq::<FuncInfoV>::empty()));
    assert(Seq::<FuncInfoV>::empty() + fv =~= fv);
    assert(objs_funcs_v(ov.take(0)) =~= Seq::<FuncInfoV>::empty());
    assert(fv + Seq::<FuncInfoV>::empty() =~= fv);
    let mut i: usize = 0;
    while i < objects.len()
        invariant
            i <= objects.len(),
            fv == funcs_view(funcs@),
            ov == objects_view(objects@),
            scan_matches(s, fv + objs_funcs_v(ov.take(i as int))),
        decreases objects.len() - i,
    {
        let ghost done = fv + objs_funcs_v(ov.take(i as int));
        let o = &objects[i];
        s = scan_funcs(s, &o.funcs, Ghost(done));
        s = scan_one(s, &o.constructor, Ghost(done + funcs_view(o.funcs@)));
        s = scan_one(s, &o.destructor, Ghost((done + funcs_view(o.funcs@)).push(func_info_view(o.constructor))));
        proof {
            assert(ov.take(i + 1).drop_last() =~= ov.take(i as int));
            assert(ov.take(i + 1).last() == obj_info_view(*o));
            assert((done + funcs_view(o.funcs@)).push(func_info_view(o.constructor)).push(func_info_view(o.destructor))
                =~= fv + objs_funcs_v(ov.take(i + 1)));
        }
        i = i + 1;
    }
    assert(ov.take(objects.len() as int) =~= ov);
    if s.events > 1 {
        errors.add(span, "More than one event handler found. Only one event handler is allowed");
    }
    if s.has_ref && !s.has_mut {
        errors.add(span, "#[shared_per_vcl] value has not been initialized. Add a `&mut Option<Box<...>>` param to an event handler or an object new() function");
    }
    if funcs.len() == 0 && objects.len() == 0 && errors.is_empty() {
        errors.add(CALL_SITE, "No functions or objects found in this module");
    }
    proof {
        let d = spec_validate(fv, ov, span, old(errors)@);
        assert(errors@ =~= d);
    }
}

impl VmodInfo {
    /// Parse the `mod` item and generate the model of everything.
    pub fn parse(params: VmodParams, item: &mut ModItem) -> (r: ProcResult<Self>)
        ensures
            ({
                let p = spec_vmod_parse(crate::parser_args::opt_str_view(params.docs), *old(item));
                &&& res_view(r, |v: VmodInfo| vmod_info_view(v)) == p.res
                &&& match (old(item).content, final(item).content, p.outs) {
                    (Some(a), Some(b), Some(outs)) => items_after(a@, b@, outs),
                    (None, None, None) => true,
                    _ => false,
                }
            }),
            final(item).ident == old(item).ident,
            final(item).attrs == old(item).attrs,
            final(item).span == old(item).span,
            r matches Ok(v) ==> forall|i: int| 0 <= i < v.objects@.len() ==> obj_output_wf(#[trigger] v.objects@[i]),
            r matches Ok(v) ==> forall|i: int| 0 <= i < v.funcs@.len() ==> output_ty_wf(#[trigger] v.funcs@[i].output_ty),
            r matches Ok(v) ==> crate::generator::vmod_wf(v),
    {
        let mut errors = Errors::new();
        let mut shared_types = SharedTypes::new();
        let (funcs, objects) = match &mut item.content {
            Some(content) => parse_items(&mut shared_types, content, &mut errors),
            None => (Vec::new(), Vec::new()),
        };
        validate(&funcs, &objects, item.span, &mut errors);
        errors.into_result()?;
        let info = VmodInfo {
            params,
            ident: item.ident.clone(),
            docs: parse_doc_str(&item.attrs),
            shared_types,
            funcs,
            objects,
        };
        proof {
            let docs_v = crate::parser_args::opt_str_view(info.params.docs);
            lemma_accepted_module(docs_v, *old(item));
            lemma_wf_from_view(info);
        }
        Ok(info)
    }
}


// ---------------------------------------------------------------------------------------------
// Laws

/// A function that reads without error keeps its name, and its kind follows from where it
/// stands: a constructor when an object's `new`, else an object method; outside an object, a
/// function or an event handler.
pub proof fn lemma_func_parse_kind(sh: SharedTypesV, sig: Signature, vis_public: bool, attrs: Seq<Attr>, is_object: bool)
    requires
        spec_func_parse(sh, sig, vis_public, attrs, is_object).res is Ok,
    ensures
        ({
            let fi = spec_func_parse(sh, sig, vis_public, attrs, is_object).res->Ok_0;
            &&& fi.1 == sig.ident@
            &&& is_object ==> fi.0 == (if fi.1 == "new"@ { FuncType::Constructor } else { FuncType::Method })
            &&& !is_object ==> (fi.0 is Function || fi.0 is Event)
        }),
{
    let (d1, a1, ft) = spec_func_prologue(sig, vis_public, attrs, is_object);
    let (_, ev) = spec_remove_attr(attrs, "event"@);
    if is_object && ev is Some {
        let fold = args_fold(sh, spec_new_status(ft), sig.inputs@);
        assert(d1.len() > 0);
        assert((d1 + fold.diags + spec_unsafe_diags(sig.span, sig.is_unsafe, true)).len() > 0);
        assert((d1 + fold.diags + spec_unsafe_diags(sig.span, sig.is_unsafe, false)).len() > 0);
    }
}

/// Only public functions are read. A function that reads is an event handler exactly when it was
/// marked `#[event]`; it has optional arguments exactly when one of its arguments is declared
/// `Option<...>` without `#[required]`; and it returns a `Result` exactly when its declared
/// output is `Result<T, E>`.
pub proof fn lemma_func_parse_facts(sh: SharedTypesV, sig: Signature, vis_public: bool, attrs: Seq<Attr>, is_object: bool)
    ensures
        ({
            let p = spec_func_parse(sh, sig, vis_public, attrs, is_object);
            &&& !vis_public ==> p.res is Err
            &&& p.res matches Ok(fi) ==> {
                &&& (fi.0 is Event <==> spec_find_attr(attrs, "event"@) is Some)
                &&& fi.3 == (exists|i: int| 0 <= i < fi.4.len() && #[trigger] is_optional_arg(fi.4[i]))
                &&& fi.6 == (sig.output matches Some(t) && spec_result_type(t) is Some)
            }
        }),
{
    let (d1, a1, ft) = spec_func_prologue(sig, vis_public, attrs, is_object);
    if !vis_public {
        assert(d1.len() > 0);
        if let Ok((out, _)) = spec_func_output(sig.output, ft) {
            let fold = args_fold(sh, spec_new_status(ft), sig.inputs@);
            assert((d1 + fold.diags + spec_unsafe_diags(sig.span, sig.is_unsafe, out is VclType)).len() > 0);
        }
    }
    let p = spec_func_parse(sh, sig, vis_public, attrs, is_object);
    if let Ok(fi) = p.res {
        let (_, ev) = spec_remove_attr(attrs, "event"@);
        assert(fi.0 == ft);
        assert(ev is Some <==> spec_find_attr(attrs, "event"@) is Some);
        assert(fi.0 is Event <==> spec_find_attr(attrs, "event"@) is Some);
        match spec_func_output(sig.output, ft) {
            Ok((out, r)) => {
                assert(fi.6 == r);
                let fold = args_fold(sh, spec_new_status(ft), sig.inputs@);
                assert(fi.4 == fold.infos);
                assert(fi.3 == (exists|i: int| 0 <= i < fi.4.len() && #[trigger] is_optional_arg(fi.4[i])));
                assert(fi.6 == (sig.output matches Some(t) && spec_result_type(t) is Some));
            },
            Err(_) => {},
        }
    }
}

/// The kinds an object's functions have: its constructor is `new`, its methods are the others.
pub open spec fn obj_kinds_ok(o: ObjInfoV) -> bool {
    &&& o.2.0 is Constructor && o.2.1 == "new"@
    &&& o.3 == destructor_view()
    &&& forall|i: int| 0 <= i < o.4.len() ==> (#[trigger] o.4[i]).0 is Method && o.4[i].1 != "new"@
}

proof fn lemma_obj_fold_kinds(sh0: SharedTypesV, members: Seq<ImplMember>)
    ensures
        ({
            let fold = obj_fold(sh0, members);
            &&& fold.ctor matches Some(c) ==> c.0 is Constructor && c.1 == "new"@
            &&& forall|i: int| 0 <= i < fold.funcs.len() ==> (#[trigger] fold.funcs[i]).0 is Method && fold.funcs[i].1 != "new"@
        }),
    decreases members.len(),
{
    if members.len() > 0 {
        let prev = obj_fold(sh0, members.drop_last());
        lemma_obj_fold_kinds(sh0, members.drop_last());
        match members.last() {
            ImplMember::Fn(f) => {
                let p = spec_func_parse(prev.sh, f.sig, f.vis_public, f.attrs@, true);
                if p.res is Ok {
                    lemma_func_parse_kind(prev.sh, f.sig, f.vis_public, f.attrs@, true);
                }
            },
            ImplMember::Other => {},
        }
    }
}

/// The kinds of the functions and objects of a module read item after item.
pub open spec fn fold_kinds_ok(funcs: Seq<FuncInfoV>, objects: Seq<ObjInfoV>) -> bool {
    &&& forall|i: int| 0 <= i < funcs.len() ==> (#[trigger] funcs[i]).0 is Function || funcs[i].0 is Event
    &&& forall|i: int| 0 <= i < objects.len() ==> obj_kinds_ok(#[trigger] objects[i])
}

proof fn lemma_mod_fold_kinds(sh0: SharedTypesV, items: Seq<Item>)
    ensures
        fold_kinds_ok(mod_fold(sh0, items).funcs, mod_fold(sh0, items).objects),
    decreases items.len(),
{
    if items.len() > 0 {
        let prev = mod_fold(sh0, items.drop_last());
        lemma_mod_fold_kinds(sh0, items.drop_last());
        let it = items.last();
        match it.kind {
            ItemKind::Fn(f) => {
                let p = spec_func_parse(prev.sh, f.sig, f.vis_public, f.attrs@, false);
                if p.res is Ok {
                    lemma_func_parse_kind(prev.sh, f.sig, f.vis_public, f.attrs@, false);
                }
            },
            ItemKind::Impl(imp) => {
                lemma_obj_fold_kinds(prev.sh, imp.items@);
            },
            _ => {},
        }
    }
}

/// A module that reads without error passes the module-wide checks: it has at most one event
/// handler, something initializes the state shared per VCL load whenever something reads it,
/// and it exports at least one function or object. Its free functions are functions or event
/// handlers; each object has its `new` as constructor, the `_fini` destructor, and its other
/// public functions as methods.
pub proof fn lemma_accepted_module(params_docs: Option<Seq<char>>, m: ModItem)
    requires
        spec_vmod_parse(params_docs, m).res is Ok,
    ensures
        ({
            let v = spec_vmod_parse(params_docs, m).res->Ok_0;
            let all = v.3 + objs_funcs_v(v.4);
            &&& count_events_v(all) <= 1
            &&& has_arg_v(all, crate::model::ArgFilter::SharedPerVclRef)
                ==> has_arg_v(all, crate::model::ArgFilter::SharedPerVclMut)
            &&& v.3.len() > 0 || v.4.len() > 0
            &&& fold_kinds_ok(v.3, v.4)
        }),
{
    let sh0: SharedTypesV = (None, None);
    match m.content {
        Some(items) => lemma_mod_fold_kinds(sh0, items@),
        None => {},
    }
}


/// Reading a function takes its `#[event]` marker out: when it has one at most, the attributes
/// it keeps hold no `event`, and every other attribute stays.
pub proof fn lemma_event_marker_taken(sh: SharedTypesV, sig: Signature, vis_public: bool, attrs: Seq<Attr>, is_object: bool)
    requires
        forall|i: int, j: int| 0 <= i < j < attrs.len() && #[trigger] attr_is(attrs[i], "event"@)
            ==> !#[trigger] attr_is(attrs[j], "event"@),
    ensures
        ({
            let kept = spec_func_parse(sh, sig, vis_public, attrs, is_object).attrs;
            &&& forall|j: int| 0 <= j < kept.len() ==> !#[trigger] attr_is(kept[j], "event"@)
            &&& forall|j: int| 0 <= j < attrs.len() && !attr_is(#[trigger] attrs[j], "event"@) ==> kept.contains(attrs[j])
        }),
{
    let kept = spec_func_parse(sh, sig, vis_public, attrs, is_object).attrs;
    crate::types::lemma_find_attr(attrs, "event"@);
    match spec_find_attr(attrs, "event"@) {
        Some(i) => {
            let n = attrs.len() - 1;
            assert(kept == attrs.update(i, attrs.last()).drop_last());
            assert forall|j: int| 0 <= j < kept.len() implies !#[trigger] attr_is(kept[j], "event"@) by {
                if j == i {
                    assert(attr_is(attrs[i], "event"@));
                    assert(!attr_is(attrs[n], "event"@));
                } else if j > i {
                    assert(attr_is(attrs[i], "event"@));
                    assert(!attr_is(attrs[j], "event"@));
                }
            }
            assert forall|j: int| 0 <= j < attrs.len() && !attr_is(#[trigger] attrs[j], "event"@) implies kept.contains(attrs[j]) by {
                if j == n {
                    assert(kept[i] == attrs[j]);
                } else {
                    assert(kept[j] == attrs[j]);
                }
            }
        },
        None => {},
    }
}

proof fn lemma_wf_from_view(v: VmodInfo)
    requires
        fold_kinds_ok(funcs_view(v.funcs@), objects_view(v.objects@)),
        forall|i: int| 0 <= i < v.funcs@.len() ==> output_ty_wf(#[trigger] v.funcs@[i].output_ty),
        forall|i: int| 0 <= i < v.objects@.len() ==> obj_output_wf(#[trigger] v.objects@[i]),
    ensures
        crate::generator::vmod_wf(v),
{
    assert forall|i: int| 0 <= i < v.funcs@.len() implies ((#[trigger] v.funcs@[i]).func_type is Function
        || v.funcs@[i].func_type is Event) by {
        assert(funcs_view(v.funcs@)[i].0 == v.funcs@[i].func_type);
    }
    assert forall|i: int| 0 <= i < v.objects@.len() implies crate::gen_objects::obj_wf(#[trigger] v.objects@[i]) by {
        let o = v.objects@[i];
        assert(objects_view(v.objects@)[i] == obj_info_view(o));
        assert(obj_kinds_ok(obj_info_view(o)));
        assert forall|k: int| 0 <= k < o.funcs@.len() implies (#[trigger] o.funcs@[k]).func_type is Method by {
            assert(funcs_view(o.funcs@)[k].0 == o.funcs@[k].func_type);
        }
    }
}

} // verus!
