//! What the VMOD exports for each function, method and event handler: the C wrapper that calls
//! the user's function (as Rust source text), its C prototype, and its JSON description.
use vstd::prelude::*;
use crate::json::{Json, JsonV, json_view, jsons_view, arr, str_json};
use crate::model::{FuncInfo, FuncType, OutputTy, ParamKind, ParamTy, ParamType, ParamTypeInfo,
    SharedTypes, output_ty_wf, spec_output_c_type, spec_output_vcc_type, spec_param_c_type,
    spec_param_vcc_type, spec_per_vcl_ty, spec_uses_shared_per_vcl, spec_func_vcc_type};
use crate::names::{Names, spec_callable};
use crate::text::{cat, str_eq};

verus! {

broadcast use vstd::string::group_string_axioms;

// ---------------------------------------------------------------------------------------------
// Text

/// The texts of a list of strings.
pub open spec fn texts(v: Seq<String>) -> Seq<Seq<char>> {
    v.map_values(|s: String| s@)
}

/// The items of `xs` with `sep` between them.
pub open spec fn spec_join(xs: Seq<Seq<char>>, sep: Seq<char>) -> Seq<char>
    decreases xs.len(),
{
    if xs.len() == 0 {
        Seq::empty()
    } else if xs.len() == 1 {
        xs[0]
    } else {
        spec_join(xs.drop_last(), sep) + sep + xs.last()
    }
}

/// The items of `xs`, each followed by `sep`.
pub open spec fn spec_each(xs: Seq<Seq<char>>, sep: Seq<char>) -> Seq<char>
    decreases xs.len(),
{
    if xs.len() == 0 {
        Seq::empty()
    } else {
        spec_each(xs.drop_last(), sep) + xs.last() + sep
    }
}

/// The strings of `xs` with `sep` between them.
pub fn join(xs: &Vec<String>, sep: &str) -> (r: String)
    ensures
        r@ == spec_join(texts(xs@), sep@),
{
    let ghost t = texts(xs@);
    let mut out = String::new();
    let mut i: usize = 0;
    while i < xs.len()
        invariant
            i <= xs@.len(),
            t == texts(xs@),
            out@ == spec_join(t.take(i as int), sep@),
        decreases xs.len() - i,
    {
        assert(t.take(i + 1).drop_last() =~= t.take(i as int));
        if i == 0 {
            out = xs[i].clone();
            assert(t.take(1) =~= seq![t[0]]);
        } else {
            out = cat(cat(out.as_str(), sep).as_str(), xs[i].as_str());
        }
        i = i + 1;
    }
    assert(t.take(xs@.len() as int) =~= t);
    out
}

/// The strings of `xs`, each followed by `sep`.
pub fn each(xs: &Vec<String>, sep: &str) -> (r: String)
    ensures
        r@ == spec_each(texts(xs@), sep@),
{
    let ghost t = texts(xs@);
    let mut out = String::new();
    let mut i: usize = 0;
    while i < xs.len()
        invariant
            i <= xs@.len(),
            t == texts(xs@),
            out@ == spec_each(t.take(i as int), sep@),
        decreases xs.len() - i,
    {
        assert(t.take(i + 1).drop_last() =~= t.take(i as int));
        out = cat(cat(out.as_str(), xs[i].as_str()).as_str(), sep);
        i = i + 1;
    }
    assert(t.take(xs@.len() as int) =~= t);
    out
}

fn push_text(v: &mut Vec<String>, s: String)
    ensures
        texts(final(v)@) == texts(old(v)@).push(s@),
{
    v.push(s);
    assert(texts(final(v)@) =~= texts(old(v)@).push(s@));
}

// ---------------------------------------------------------------------------------------------
// What the arguments contribute

/// What the wrapper of a function is made of, gathered from the function's kind and arguments.
#[verifier::ext_equal]
pub struct FuncPlan {
    /// Steps before the call of the user's function
    pub pre_call: Seq<Seq<char>>,
    /// The arguments the user's function is called with
    pub call_vars: Seq<Seq<char>>,
    /// Steps after the call, run even when it fails
    pub after_call: Seq<Seq<char>>,
    /// The wrapper needs the VCL context
    pub needs_ctx: bool,
    /// C types of the arguments, for a function without optional arguments
    pub cproto_wrapper_args: Seq<Seq<char>>,
    /// C fields of the arguments structure, for a function with optional arguments
    pub cproto_opt_arg_decl: Seq<Seq<char>>,
    /// Rust fields of the arguments structure
    pub opt_args_arg_decl: Seq<Seq<char>>,
    /// Rust parameters of the wrapper
    pub wrap_fn_arg_decl: Seq<Seq<char>>,
    /// C parameters of the wrapper, matching `wrap_fn_arg_decl`
    pub cproto_fn_arg_decl: Seq<Seq<char>>,
    /// JSON description of each argument
    pub args_json: Seq<JsonV>,
}

pub open spec fn empty_plan() -> FuncPlan {
    FuncPlan {
        pre_call: seq![],
        call_vars: seq![],
        after_call: seq![],
        needs_ctx: false,
        cproto_wrapper_args: seq![],
        cproto_opt_arg_decl: seq![],
        opt_args_arg_decl: seq![],
        wrap_fn_arg_decl: seq![],
        cproto_fn_arg_decl: seq![],
        args_json: seq![],
    }
}

/// How the wrapper reaches an input value: from the arguments structure when the function has
/// optional arguments, else directly.
pub open spec fn spec_arg_value(info: FuncInfo, name: Seq<char>) -> Seq<char> {
    if info.has_optional_args { "__args."@ + name } else { name }
}

/// A parameter of the wrapper; event handlers and destructors keep their fixed signature.
pub open spec fn plan_wrapper_arg(p: FuncPlan, info: FuncInfo, code: Seq<char>) -> FuncPlan {
    if info.func_type is Function || info.func_type is Constructor || info.func_type is Method {
        if info.has_optional_args {
            FuncPlan { opt_args_arg_decl: p.opt_args_arg_decl.push(code), ..p }
        } else {
            FuncPlan { wrap_fn_arg_decl: p.wrap_fn_arg_decl.push(code), ..p }
        }
    } else {
        p
    }
}

/// A C argument: a field of the arguments structure, or a C type of the prototype.
pub open spec fn plan_cproto_arg(p: FuncPlan, info: FuncInfo, ctype: Seq<char>, name: Seq<char>) -> FuncPlan {
    if info.has_optional_args {
        FuncPlan { cproto_opt_arg_decl: p.cproto_opt_arg_decl.push(ctype + " "@ + name), ..p }
    } else {
        FuncPlan { cproto_wrapper_args: p.cproto_wrapper_args.push(ctype), ..p }
    }
}

/// The JSON of an argument: `[VCC type, name, default, spec, optional]`; the default is written
/// as the JSON text of the value. An optional argument keeps all five entries; otherwise the
/// trailing nulls are dropped.
pub open spec fn spec_arg_json(name: Seq<char>, is_optional: bool, vcc_type: Seq<char>, default: Option<Seq<char>>) -> JsonV {
    let d = match default {
        Some(t) => JsonV::Str(t),
        None => JsonV::Null,
    };
    if is_optional {
        JsonV::Arr(seq![JsonV::Str(vcc_type), JsonV::Str(name), d, JsonV::Null, JsonV::Bool(true)])
    } else if default is Some {
        JsonV::Arr(seq![JsonV::Str(vcc_type), JsonV::Str(name), d])
    } else {
        JsonV::Arr(seq![JsonV::Str(vcc_type), JsonV::Str(name)])
    }
}

/// How a value argument is converted from its C value.
pub open spec fn spec_input_expr(value: Seq<char>, try_from: bool) -> Seq<char> {
    if try_from { value + ".try_into()?"@ } else { value + ".into()"@ }
}

/// What an argument adds to the wrapper.
pub open spec fn plan_param(p: FuncPlan, info: FuncInfo, arg: ParamTypeInfo) -> FuncPlan {
    let a = arg.ident@;
    let av = spec_arg_value(info, a);
    match arg.ty {
        ParamType::Context { is_mut } => FuncPlan {
            needs_ctx: true,
            call_vars: p.call_vars.push(if is_mut { "&mut __ctx"@ } else { "&__ctx"@ }),
            ..p
        },
        ParamType::Workspace { is_mut } => FuncPlan {
            needs_ctx: true,
            call_vars: p.call_vars.push(if is_mut { "&mut __ctx.ws"@ } else { "&__ctx.ws"@ }),
            ..p
        },
        ParamType::SelfType => FuncPlan {
            pre_call: p.pre_call.push("let __obj = __obj.as_ref().unwrap();"@),
            ..p
        },
        ParamType::Event => FuncPlan {
            call_vars: p.call_vars.push("__ev"@),
            args_json: p.args_json.push(spec_arg_json(a, false, "EVENT"@, None)),
            ..p
        },
        ParamType::VclName(pi) => FuncPlan {
            call_vars: p.call_vars.push(spec_input_expr("VCL_STRING(__vcl_name)"@, pi.ty_info is Str)),
            ..p
        },
        ParamType::SharedPerTask => {
            let p1 = plan_wrapper_arg(p, info, a + ": *mut vmod_priv"@);
            let p2 = FuncPlan {
                pre_call: p1.pre_call.push("let mut __obj_per_task = (* "@ + av + ").take();"@),
                call_vars: p1.call_vars.push("&mut __obj_per_task"@),
                after_call: p1.after_call.push(
                    "if let Some(obj) = __obj_per_task { (* "@ + av + ").put(obj, &PRIV_TASK_METHODS); }"@),
                args_json: p1.args_json.push(spec_arg_json(a, false, "PRIV_TASK"@, None)),
                ..p1
            };
            plan_cproto_arg(p2, info, "struct vmod_priv *"@, a)
        },
        ParamType::SharedPerVclRef => {
            let p1 = plan_wrapper_arg(p, info, a + ": *const vmod_priv"@);
            let p2 = FuncPlan {
                call_vars: p1.call_vars.push(av
                    + ".as_ref().and_then::<&PerVclState<_>, _>(|v| v.get_ref()).and_then(|v| v.get_user_data())"@),
                args_json: p1.args_json.push(spec_arg_json(a, false, "PRIV_VCL"@, None)),
                ..p1
            };
            plan_cproto_arg(p2, info, "struct vmod_priv *"@, a)
        },
        ParamType::SharedPerVclMut => FuncPlan {
            call_vars: p.call_vars.push("&mut __obj_per_vcl.user_data"@),
            ..p
        },
        ParamType::DeliveryFilters => FuncPlan {
            needs_ctx: true,
            call_vars: p.call_vars.push("&mut __ctx.raw.delivery_filters(&mut __obj_per_vcl.delivery_filters)"@),
            ..p
        },
        ParamType::FetchFilters => FuncPlan {
            needs_ctx: true,
            call_vars: p.call_vars.push("&mut __ctx.raw.fetch_filters(&mut __obj_per_vcl.fetch_filters)"@),
            ..p
        },
        ParamType::Value(pi) => {
            let optional = pi.kind is Optional;
            let base = spec_input_expr(av, pi.ty_info is Str);
            let valid = "valid_"@ + a;
            let input = if optional {
                "if __args."@ + valid + " != 0 { "@ + base + " } else { None }"@
            } else {
                base
            };
            let p1 = if optional {
                let q = plan_wrapper_arg(p, info, valid + ": c_char"@);
                FuncPlan { cproto_opt_arg_decl: q.cproto_opt_arg_decl.push("char "@ + valid), ..q }
            } else {
                p
            };
            let c_type = spec_param_c_type(pi.ty_info);
            let p2 = plan_wrapper_arg(p1, info, a + ": "@ + c_type);
            let p3 = FuncPlan {
                call_vars: p2.call_vars.push(input),
                args_json: p2.args_json.push(spec_arg_json(a, optional, spec_param_vcc_type(pi.ty_info),
                    crate::parser_args::opt_str_view(pi.default))),
                ..p2
            };
            plan_cproto_arg(p3, info, c_type, a)
        },
    }
}

/// What the arguments add to the wrapper, argument after argument.
pub open spec fn plan_params(p: FuncPlan, info: FuncInfo, args: Seq<ParamTypeInfo>) -> FuncPlan
    decreases args.len(),
{
    if args.len() == 0 {
        p
    } else {
        plan_param(plan_params(p, info, args.drop_last()), info, args.last())
    }
}

/// The object's name, for a constructor, destructor or method.
pub open spec fn obj_of(n: Names) -> Seq<char> {
    n.spec_object().unwrap()
}

pub open spec fn struct_obj_of(n: Names) -> Seq<char> {
    "struct vmod_"@ + n.spec_module() + "_"@ + obj_of(n)
}

pub open spec fn arg_struct_of(n: Names) -> Seq<char> {
    "arg_vmod_"@ + n.spec_module() + n.spec_obj_parts() + "_"@ + n.spec_fn_name()
}

/// What the kind of the function adds to the wrapper before its arguments, with the state shared
/// per VCL load when the function takes it.
pub open spec fn plan_prologue(n: Names, info: FuncInfo, shared: SharedTypes) -> FuncPlan {
    let ft = info.func_type;
    let p0 = empty_plan();
    let p1 = if ft is Destructor {
        FuncPlan { pre_call: p0.pre_call.push("drop(Box::from_raw(*__objp)); *__objp = ::std::ptr::null_mut();"@), ..p0 }
    } else {
        FuncPlan {
            wrap_fn_arg_decl: p0.wrap_fn_arg_decl.push("__ctx: *mut vrt_ctx"@),
            cproto_fn_arg_decl: p0.cproto_fn_arg_decl.push("VRT_CTX"@),
            ..p0
        }
    };
    let p2 = if ft is Constructor || ft is Destructor {
        FuncPlan {
            wrap_fn_arg_decl: p1.wrap_fn_arg_decl.push("__objp: *mut *mut "@ + obj_of(n)),
            cproto_fn_arg_decl: p1.cproto_fn_arg_decl.push(struct_obj_of(n) + " **"@),
            ..p1
        }
    } else {
        p1
    };
    let p3 = if ft is Constructor {
        FuncPlan {
            wrap_fn_arg_decl: p2.wrap_fn_arg_decl.push("__vcl_name: *const c_char"@),
            cproto_fn_arg_decl: p2.cproto_fn_arg_decl.push("const char *"@),
            ..p2
        }
    } else {
        p2
    };
    let p4 = if ft is Method {
        FuncPlan {
            wrap_fn_arg_decl: p3.wrap_fn_arg_decl.push("__obj: *const "@ + "super::"@ + obj_of(n)),
            cproto_fn_arg_decl: p3.cproto_fn_arg_decl.push(struct_obj_of(n) + " *"@),
            ..p3
        }
    } else {
        p3
    };
    let p5 = if ft is Event {
        FuncPlan { wrap_fn_arg_decl: p4.wrap_fn_arg_decl.push("__vp: *mut vmod_priv"@).push("__ev: VclEvent"@), ..p4 }
    } else {
        p4
    };
    let p6 = if info.has_optional_args {
        FuncPlan {
            pre_call: p5.pre_call.push("let __args = __args.as_ref().unwrap();"@),
            wrap_fn_arg_decl: p5.wrap_fn_arg_decl.push("__args: *const "@ + arg_struct_of(n)),
            ..p5
        }
    } else {
        p5
    };
    if spec_uses_shared_per_vcl(info) {
        let av = spec_arg_value(info, "__vp"@);
        let q1 = plan_wrapper_arg(p6, info, "__vp: *mut vmod_priv"@);
        let q2 = FuncPlan {
            pre_call: q1.pre_call.push("let mut __obj_per_vcl = (* "@ + av + ").take_per_vcl::<"@
                + spec_per_vcl_ty(shared) + ">();"@),
            after_call: q1.after_call.push("(* "@ + av + ").put(__obj_per_vcl, &PRIV_VCL_METHODS);"@),
            args_json: q1.args_json.push(spec_arg_json("__vp"@, false, "PRIV_VCL"@, None)),
            ..q1
        };
        plan_cproto_arg(q2, info, "struct vmod_priv *"@, "__vp"@)
    } else {
        p6
    }
}

/// Everything the function's kind and arguments add to its wrapper.
pub open spec fn spec_plan(n: Names, info: FuncInfo, shared: SharedTypes) -> FuncPlan {
    plan_params(plan_prologue(n, info, shared), info, info.args@)
}


// ---------------------------------------------------------------------------------------------
// Gathering the plan

struct Lists {
    pre_call: Vec<String>,
    call_vars: Vec<String>,
    after_call: Vec<String>,
    needs_ctx: bool,
    cproto_wrapper_args: Vec<String>,
    cproto_opt_arg_decl: Vec<String>,
    opt_args_arg_decl: Vec<String>,
    wrap_fn_arg_decl: Vec<String>,
    cproto_fn_arg_decl: Vec<String>,
    args_json: Vec<Json>,
}

spec fn lists_view(l: Lists) -> FuncPlan {
    FuncPlan {
        pre_call: texts(l.pre_call@),
        call_vars: texts(l.call_vars@),
        after_call: texts(l.after_call@),
        needs_ctx: l.needs_ctx,
        cproto_wrapper_args: texts(l.cproto_wrapper_args@),
        cproto_opt_arg_decl: texts(l.cproto_opt_arg_decl@),
        opt_args_arg_decl: texts(l.opt_args_arg_decl@),
        wrap_fn_arg_decl: texts(l.wrap_fn_arg_decl@),
        cproto_fn_arg_decl: texts(l.cproto_fn_arg_decl@),
        args_json: l.args_json@.map_values(|j: Json| json_view(j)),
    }
}

fn push_json(v: &mut Vec<Json>, j: Json)
    ensures
        final(v)@.map_values(|x: Json| json_view(x)) == old(v)@.map_values(|x: Json| json_view(x)).push(json_view(j)),
{
    let ghost j0 = json_view(j);
    v.push(j);
    assert(final(v)@.map_values(|x: Json| json_view(x)) =~= old(v)@.map_values(|x: Json| json_view(x)).push(j0));
}

fn new_lists() -> (l: Lists)
    ensures
        lists_view(l) == empty_plan(),
{
    let l = Lists {
        pre_call: Vec::new(),
        call_vars: Vec::new(),
        after_call: Vec::new(),
        needs_ctx: false,
        cproto_wrapper_args: Vec::new(),
        cproto_opt_arg_decl: Vec::new(),
        opt_args_arg_decl: Vec::new(),
        wrap_fn_arg_decl: Vec::new(),
        cproto_fn_arg_decl: Vec::new(),
        args_json: Vec::new(),
    };
    assert(lists_view(l) =~= empty_plan());
    l
}

fn add_wrapper_arg(l: &mut Lists, info: &FuncInfo, code: String)
    ensures
        lists_view(*final(l)) == plan_wrapper_arg(lists_view(*old(l)), *info, code@),
{
    if matches!(info.func_type, FuncType::Function | FuncType::Constructor | FuncType::Method) {
        if info.has_optional_args {
            push_text(&mut l.opt_args_arg_decl, code);
        } else {
            push_text(&mut l.wrap_fn_arg_decl, code);
        }
    }
}

fn add_cproto_arg(l: &mut Lists, info: &FuncInfo, ctype: &str, name: &str)
    ensures
        lists_view(*final(l)) == plan_cproto_arg(lists_view(*old(l)), *info, ctype@, name@),
{
    if info.has_optional_args {
        push_text(&mut l.cproto_opt_arg_decl, cat(cat(ctype, " ").as_str(), name));
    } else {
        push_text(&mut l.cproto_wrapper_args, ctype.to_string());
    }
}

/// The JSON of an argument: `[VCC type, name, default, spec, optional]`, the trailing nulls of a
/// required argument dropped.
pub fn arg_to_json(arg_name: &str, is_optional_arg: bool, vcc_type: &str, default: &Option<String>) -> (j: Json)
    ensures
        json_view(j) == spec_arg_json(arg_name@, is_optional_arg, vcc_type@, crate::parser_args::opt_str_view(*default)),
{
    let d = match default {
        Some(t) => str_json(t.as_str()),
        None => Json::Null,
    };
    let ghost dv = json_view(d);
    let mut items: Vec<Json> = Vec::new();
    items.push(str_json(vcc_type));
    items.push(str_json(arg_name));
    if is_optional_arg {
        items.push(d);
        items.push(Json::Null);
        items.push(Json::Bool(true));
    } else if default.is_some() {
        items.push(d);
    }
    let ghost iv = jsons_view(items@);
    let j = arr(items);
    proof {
        let sv = JsonV::Str(vcc_type@);
        let sn = JsonV::Str(arg_name@);
        if is_optional_arg {
            assert(iv =~= seq![sv, sn, dv, JsonV::Null, JsonV::Bool(true)]);
        } else if default is Some {
            assert(iv =~= seq![sv, sn, dv]);
        } else {
            assert(iv =~= seq![sv, sn]);
        }
    }
    j
}

/// How the wrapper reaches an input value.
fn arg_value(info: &FuncInfo, name: &str) -> (r: String)
    ensures
        r@ == spec_arg_value(*info, name@),
{
    if info.has_optional_args {
        cat("__args.", name)
    } else {
        name.to_string()
    }
}

fn input_expr(value: &str, try_from: bool) -> (r: String)
    ensures
        r@ == spec_input_expr(value@, try_from),
{
    if try_from {
        cat(value, ".try_into()?")
    } else {
        cat(value, ".into()")
    }
}

/// Adds what an argument needs to the wrapper.
fn do_fn_param(l: &mut Lists, info: &FuncInfo, arg: &ParamTypeInfo)
    ensures
        lists_view(*final(l)) == plan_param(lists_view(*old(l)), *info, *arg),
{
    let a = arg.ident.as_str();
    let av = arg_value(info, a);
    match &arg.ty {
        ParamType::Context { is_mut } => {
            l.needs_ctx = true;
            push_text(&mut l.call_vars, if *is_mut { "&mut __ctx".to_string() } else { "&__ctx".to_string() });
        },
        ParamType::Workspace { is_mut } => {
            l.needs_ctx = true;
            push_text(&mut l.call_vars, if *is_mut { "&mut __ctx.ws".to_string() } else { "&__ctx.ws".to_string() });
        },
        ParamType::SelfType => {
            push_text(&mut l.pre_call, "let __obj = __obj.as_ref().unwrap();".to_string());
        },
        ParamType::Event => {
            push_text(&mut l.call_vars, "__ev".to_string());
            push_json(&mut l.args_json, arg_to_json(a, false, "EVENT", &None));
        },
        ParamType::VclName(pi) => {
            push_text(&mut l.call_vars, input_expr("VCL_STRING(__vcl_name)", pi.ty_info.use_try_from()));
        },
        ParamType::SharedPerTask => {
            add_wrapper_arg(l, info, cat(a, ": *mut vmod_priv"));
            push_text(&mut l.pre_call, cat(cat("let mut __obj_per_task = (* ", av.as_str()).as_str(), ").take();"));
            push_text(&mut l.call_vars, "&mut __obj_per_task".to_string());
            push_text(&mut l.after_call, cat(cat("if let Some(obj) = __obj_per_task { (* ", av.as_str()).as_str(),
                ").put(obj, &PRIV_TASK_METHODS); }"));
            push_json(&mut l.args_json, arg_to_json(a, false, "PRIV_TASK", &None));
            add_cproto_arg(l, info, "struct vmod_priv *", a);
        },
        ParamType::SharedPerVclRef => {
            add_wrapper_arg(l, info, cat(a, ": *const vmod_priv"));
            push_text(&mut l.call_vars, cat(av.as_str(),
                ".as_ref().and_then::<&PerVclState<_>, _>(|v| v.get_ref()).and_then(|v| v.get_user_data())"));
            push_json(&mut l.args_json, arg_to_json(a, false, "PRIV_VCL", &None));
            add_cproto_arg(l, info, "struct vmod_priv *", a);
        },
        ParamType::SharedPerVclMut => {
            push_text(&mut l.call_vars, "&mut __obj_per_vcl.user_data".to_string());
        },
        ParamType::DeliveryFilters => {
            l.needs_ctx = true;
            push_text(&mut l.call_vars, "&mut __ctx.raw.delivery_filters(&mut __obj_per_vcl.delivery_filters)".to_string());
        },
        ParamType::FetchFilters => {
            l.needs_ctx = true;
            push_text(&mut l.call_vars, "&mut __ctx.raw.fetch_filters(&mut __obj_per_vcl.fetch_filters)".to_string());
        },
        ParamType::Value(pi) => {
            let optional = matches!(pi.kind, ParamKind::Optional);
            let base = input_expr(av.as_str(), pi.ty_info.use_try_from());
            let valid = cat("valid_", a);
            let input = if optional {
                let x = cat(cat("if __args.", valid.as_str()).as_str(), " != 0 { ");
                cat(cat(x.as_str(), base.as_str()).as_str(), " } else { None }")
            } else {
                base
            };
            if optional {
                add_wrapper_arg(l, info, cat(valid.as_str(), ": c_char"));
                push_text(&mut l.cproto_opt_arg_decl, cat("char ", valid.as_str()));
            }
            let c_type = pi.ty_info.to_c_type();
            add_wrapper_arg(l, info, cat(cat(a, ": ").as_str(), c_type));
            push_text(&mut l.call_vars, input);
            push_json(&mut l.args_json, arg_to_json(a, optional, pi.ty_info.to_vcc_type(), &pi.default));
            add_cproto_arg(l, info, c_type, a);
        },
    }
}


// ---------------------------------------------------------------------------------------------
// The wrapper, its prototype and its JSON

/// `s` followed by `t`.
fn app(s: String, t: &str) -> (r: String)
    ensures
        r@ == s@ + t@,
{
    cat(s.as_str(), t)
}

/// The output type the wrapper returns: an event handler's C wrapper returns an `INT`.
pub open spec fn spec_out_ty(info: FuncInfo) -> OutputTy {
    if info.func_type is Event { OutputTy::ParamType(ParamTy::I64) } else { info.output_ty }
}

pub open spec fn spec_output_hdr(info: FuncInfo) -> Seq<char> {
    spec_output_c_type(spec_out_ty(info))
}

pub open spec fn spec_output_vcc(info: FuncInfo) -> Seq<char> {
    spec_output_vcc_type(spec_out_ty(info))
}

/// `-> C type`, or nothing for a wrapper that returns nothing.
pub open spec fn spec_wrap_fn_output(info: FuncInfo) -> Seq<char> {
    if spec_output_hdr(info) == "VCL_VOID"@ { Seq::empty() } else { "-> "@ + spec_output_hdr(info) }
}

pub open spec fn wrapper_name_of(n: Names) -> Seq<char> {
    "vmod_c"@ + n.spec_obj_parts() + "_"@ + n.spec_fn_name()
}

pub open spec fn typedef_name_of(n: Names) -> Seq<char> {
    "td_vmod_"@ + n.spec_module() + n.spec_obj_parts() + "_"@ + n.spec_fn_name()
}

pub open spec fn f_fn_of(n: Names) -> Seq<char> {
    "f"@ + n.spec_obj_parts() + "_"@ + n.spec_fn_name()
}

pub open spec fn func_struct_of(n: Names) -> Seq<char> {
    "Vmod_vmod_"@ + n.spec_module() + "_Func"@
}

/// The signature of the wrapper: `unsafe extern "C" fn name(args) -> output`.
pub open spec fn spec_signature(n: Names, info: FuncInfo, p: FuncPlan, with_name: bool) -> Seq<char> {
    "unsafe extern \"C\" fn "@ + (if with_name { wrapper_name_of(n) } else { Seq::empty() }) + "("@
        + spec_join(p.wrap_fn_arg_decl, ", "@) + ") "@ + spec_wrap_fn_output(info)
}

/// Some argument is converted with `TryFrom`.
pub open spec fn any_try_from(args: Seq<ParamTypeInfo>) -> bool
    decreases args.len(),
{
    args.len() > 0 && (any_try_from(args.drop_last()) || match args.last().ty {
        ParamType::VclName(pi) | ParamType::Value(pi) => pi.ty_info is Str,
        _ => false,
    })
}

/// The wrapper may fail: an argument converted with `TryFrom`, a user function returning a
/// `Result`, or an output whose conversion to a VCL type may fail.
pub open spec fn spec_may_fail(info: FuncInfo) -> bool {
    any_try_from(info.args@) || info.out_result
        || (spec_output_hdr(info) != "VCL_VOID"@ && !(info.output_ty is Default || info.output_ty is VclType))
}

/// The call of the user's function.
pub open spec fn spec_call(n: Names, info: FuncInfo, p: FuncPlan) -> Seq<char> {
    let c = spec_callable(info.func_type, n.spec_object(), n.spec_function().unwrap().1) + "("@
        + spec_join(p.call_vars, ", "@) + ")"@;
    if info.out_result { c + "?"@ } else { c }
}

/// The steps of the call, the value the wrapper returns, and whether it needs the context.
pub open spec fn spec_result_parts(n: Names, info: FuncInfo, p: FuncPlan) -> (Seq<Seq<char>>, Seq<char>, bool) {
    if info.func_type is Destructor {
        (seq![], Seq::empty(), p.needs_ctx)
    } else {
        let call = spec_call(n, info, p);
        let is_void = spec_output_hdr(info) == "VCL_VOID"@;
        let (steps, value, ctx): (Seq<Seq<char>>, Seq<char>, bool) = if info.func_type is Event {
            (seq![call + ";"@], "VCL_INT(0)"@, p.needs_ctx)
        } else if !is_void && !(info.output_ty is VclType) {
            (seq![], call + ".into_vcl(&mut __ctx.ws)?"@, true)
        } else {
            (seq![], call, p.needs_ctx)
        };
        if info.func_type is Constructor {
            (steps.push("let __result = Box::new( "@ + value + " ); *__objp = Box::into_raw(__result);"@), Seq::empty(), ctx)
        } else {
            (steps, value, ctx)
        }
    }
}

/// What the wrapper does once the steps before the call are done, and whether it needs the
/// context: a wrapper that may fail runs the call in a closure, fails the task on error, and
/// returns a default value then.
pub open spec fn spec_result(n: Names, info: FuncInfo, p: FuncPlan) -> (Seq<char>, bool) {
    let (steps, value, ctx) = spec_result_parts(n, info, p);
    let st = spec_each(steps, " "@);
    let after = spec_each(p.after_call, " "@);
    if spec_may_fail(info) {
        let err: Seq<char> = if spec_output_hdr(info) == "VCL_VOID"@ {
            Seq::empty()
        } else if info.func_type is Event {
            "VCL_INT(1)"@
        } else {
            "Default::default()"@
        };
        let v = if value.len() == 0 { "()"@ } else { value };
        let lambda = "let mut __call_user_func = || -> Result<_, ::varnish::vcl::VclError> { "@ + st + "Ok( "@ + v + " ) }"@;
        let res = if p.after_call.len() == 0 {
            lambda + "; __call_user_func()"@
        } else {
            lambda + "; let __result = __call_user_func(); "@ + after + "__result"@
        };
        (res + ".unwrap_or_else(|err| { __ctx.fail(err); "@ + err + " })"@, true)
    } else if p.after_call.len() == 0 {
        (st + value, ctx)
    } else if value.len() == 0 {
        (st + after, ctx)
    } else {
        (st + "let __result = "@ + value + "; "@ + after + "__result"@, ctx)
    }
}

/// The Rust structure of the optional arguments, for a function that has some.
pub open spec fn spec_opt_struct(n: Names, info: FuncInfo, p: FuncPlan) -> Seq<char> {
    if info.has_optional_args {
        "#[repr(C)] struct "@ + arg_struct_of(n) + " { "@ + spec_each(p.opt_args_arg_decl, ", "@) + "}"@
    } else {
        Seq::empty()
    }
}

/// The wrapper: the C-callable function that converts the arguments, calls the user's function
/// and converts its result.
pub open spec fn spec_callback(n: Names, info: FuncInfo, p: FuncPlan) -> Seq<char> {
    let (result, ctx) = spec_result(n, info, p);
    let create_ctx = if ctx { "let mut __ctx = Ctx::from_ptr(__ctx); "@ } else { Seq::empty() };
    spec_opt_struct(n, info, p) + " "@ + spec_signature(n, info, p, true) + " { "@ + create_ctx
        + spec_each(p.pre_call, " "@) + result + " }"@
}

/// Each item of `xs` between `pre` and `post`.
pub open spec fn spec_wrap_each(xs: Seq<Seq<char>>, pre: Seq<char>, post: Seq<char>) -> Seq<char>
    decreases xs.len(),
{
    if xs.len() == 0 {
        Seq::empty()
    } else {
        spec_wrap_each(xs.drop_last(), pre, post) + pre + xs.last() + post
    }
}

/// The C arguments of the prototype, one per line.
pub open spec fn spec_c_args(xs: Seq<Seq<char>>) -> Seq<char> {
    if xs.len() == 0 { Seq::empty() } else { "\n    "@ + spec_join(xs, ",\n    "@) }
}

/// The function's part of the C prototype: the line in the structure of exported functions, and
/// the declaration of its type (with the structure of its optional arguments).
pub open spec fn spec_cproto(n: Names, info: FuncInfo, p: FuncPlan) -> (Seq<char>, Seq<char>) {
    let (td, decl) = if info.func_type is Event {
        ("vmod_event_f"@, Seq::empty())
    } else {
        let head = "\n"@ + if info.has_optional_args {
            "struct "@ + arg_struct_of(n) + " {\n"@ + spec_wrap_each(p.cproto_opt_arg_decl, "  "@, ";\n"@) + "};\n\n"@
        } else {
            Seq::empty()
        };
        let tail = if info.has_optional_args {
            ",\n    struct "@ + arg_struct_of(n) + " *"@
        } else {
            spec_wrap_each(p.cproto_wrapper_args, ",\n    "@, Seq::empty())
        };
        (typedef_name_of(n), head + "typedef "@ + spec_output_hdr(info) + " "@ + typedef_name_of(n) + "("@
            + spec_c_args(p.cproto_fn_arg_decl) + tail + "\n);\n"@)
    };
    ("  "@ + td + " *"@ + f_fn_of(n) + ";\n"@, decl)
}

/// The JSON of the function: its kind, name and declaration (its output, its C callback, the C
/// structure of its optional arguments, and its arguments); an event handler is described by its
/// callback alone, and a constructor or destructor has no name.
pub open spec fn spec_func_json(n: Names, info: FuncInfo, p: FuncPlan) -> JsonV {
    let callback = func_struct_of(n) + "."@ + f_fn_of(n);
    let args_struct: Seq<char> = if info.has_optional_args { "struct "@ + arg_struct_of(n) } else { Seq::empty() };
    let decl = seq![JsonV::Arr(seq![JsonV::Str(spec_output_vcc(info))]), JsonV::Str(callback), JsonV::Str(args_struct)]
        + p.args_json;
    let kind = JsonV::Str(spec_func_vcc_type(info.func_type));
    match info.func_type {
        FuncType::Function | FuncType::Method => JsonV::Arr(seq![kind, JsonV::Str(n.spec_fn_name()), JsonV::Arr(decl)]),
        FuncType::Constructor | FuncType::Destructor => JsonV::Arr(seq![kind, JsonV::Arr(decl)]),
        FuncType::Event => JsonV::Arr(seq![kind, JsonV::Str(callback)]),
    }
}

/// The names a [`FuncProcessor`] can be made with: those of a function, of an object's when it is
/// a constructor, destructor or method.
pub open spec fn names_fit(n: Names, info: FuncInfo) -> bool {
    &&& n.spec_function() is Some
    &&& n.spec_function().unwrap().0 == info.func_type
    &&& (info.func_type is Constructor || info.func_type is Destructor || info.func_type is Method)
        ==> n.spec_object() is Some
}

fn prologue(names: &Names, info: &FuncInfo, shared: &SharedTypes) -> (l: Lists)
    requires
        names_fit(*names, *info),
    ensures
        lists_view(l) == plan_prologue(*names, *info, *shared),
{
    let mut l = new_lists();
    let ft = info.func_type;
    if matches!(ft, FuncType::Destructor) {
        push_text(&mut l.pre_call, "drop(Box::from_raw(*__objp)); *__objp = ::std::ptr::null_mut();".to_string());
    } else {
        push_text(&mut l.wrap_fn_arg_decl, "__ctx: *mut vrt_ctx".to_string());
        push_text(&mut l.cproto_fn_arg_decl, "VRT_CTX".to_string());
    }
    if matches!(ft, FuncType::Constructor | FuncType::Destructor) {
        push_text(&mut l.wrap_fn_arg_decl, cat("__objp: *mut *mut ", names.obj_name()));
        push_text(&mut l.cproto_fn_arg_decl, app(names.struct_obj_name(), " **"));
    }
    if matches!(ft, FuncType::Constructor) {
        push_text(&mut l.wrap_fn_arg_decl, "__vcl_name: *const c_char".to_string());
        push_text(&mut l.cproto_fn_arg_decl, "const char *".to_string());
    }
    if matches!(ft, FuncType::Method) {
        push_text(&mut l.wrap_fn_arg_decl, cat("__obj: *const ", names.obj_access().as_str()));
        push_text(&mut l.cproto_fn_arg_decl, app(names.struct_obj_name(), " *"));
    }
    if matches!(ft, FuncType::Event) {
        push_text(&mut l.wrap_fn_arg_decl, "__vp: *mut vmod_priv".to_string());
        push_text(&mut l.wrap_fn_arg_decl, "__ev: VclEvent".to_string());
    }
    if info.has_optional_args {
        push_text(&mut l.pre_call, "let __args = __args.as_ref().unwrap();".to_string());
        push_text(&mut l.wrap_fn_arg_decl, cat("__args: *const ", names.arg_struct_name().as_str()));
    }
    proof {
        assert("__obj: *const "@ + ("super::"@ + obj_of(*names)) =~= "__obj: *const "@ + "super::"@ + obj_of(*names));
    }
    if info.use_shared_per_vcl() {
        let av = arg_value(info, "__vp");
        add_wrapper_arg(&mut l, info, "__vp: *mut vmod_priv".to_string());
        let pre = app(app(cat("let mut __obj_per_vcl = (* ", av.as_str()), ").take_per_vcl::<"),
            shared.get_per_vcl_ty());
        push_text(&mut l.pre_call, app(pre, ">();"));
        push_text(&mut l.after_call, app(cat("(* ", av.as_str()), ").put(__obj_per_vcl, &PRIV_VCL_METHODS);"));
        push_json(&mut l.args_json, arg_to_json("__vp", false, "PRIV_VCL", &None));
        add_cproto_arg(&mut l, info, "struct vmod_priv *", "__vp");
    }
    proof {
        assert(lists_view(l) =~= plan_prologue(*names, *info, *shared));
    }
    l
}

/// Everything the function's kind and arguments add to the wrapper.
fn plan(names: &Names, info: &FuncInfo, shared: &SharedTypes) -> (l: Lists)
    requires
        names_fit(*names, *info),
    ensures
        lists_view(l) == spec_plan(*names, *info, *shared),
{
    let mut l = prologue(names, info, shared);
    let ghost p0 = lists_view(l);
    let mut i: usize = 0;
    while i < info.args.len()
        invariant
            i <= info.args@.len(),
            lists_view(l) == plan_params(p0, *info, info.args@.take(i as int)),
        decreases info.args.len() - i,
    {
        assert(info.args@.take(i + 1).drop_last() =~= info.args@.take(i as int));
        do_fn_param(&mut l, info, &info.args[i]);
        i = i + 1;
    }
    assert(info.args@.take(info.args@.len() as int) =~= info.args@);
    l
}

fn join_texts(xs: &Vec<String>, sep: &str) -> (r: String)
    ensures
        r@ == spec_join(texts(xs@), sep@),
{
    join(xs, sep)
}

/// Each string of `xs` between `pre` and `post`.
fn wrap_each(xs: &Vec<String>, pre: &str, post: &str) -> (r: String)
    ensures
        r@ == spec_wrap_each(texts(xs@), pre@, post@),
{
    let ghost t = texts(xs@);
    let mut out = String::new();
    let mut i: usize = 0;
    while i < xs.len()
        invariant
            i <= xs@.len(),
            t == texts(xs@),
            out@ == spec_wrap_each(t.take(i as int), pre@, post@),
        decreases xs.len() - i,
    {
        assert(t.take(i + 1).drop_last() =~= t.take(i as int));
        out = app(app(app(out, pre), xs[i].as_str()), post);
        i = i + 1;
    }
    assert(t.take(xs@.len() as int) =~= t);
    out
}

/// The output type of the wrapper.
fn out_ty_c(info: &FuncInfo) -> (r: String)
    requires
        output_ty_wf(info.output_ty),
    ensures
        r@ == spec_output_hdr(*info),
{
    if matches!(info.func_type, FuncType::Event) {
        OutputTy::ParamType(ParamTy::I64).to_c_type()
    } else {
        info.output_ty.to_c_type()
    }
}

fn out_ty_vcc(info: &FuncInfo) -> (r: String)
    requires
        output_ty_wf(info.output_ty),
    ensures
        r@ == spec_output_vcc(*info),
{
    if matches!(info.func_type, FuncType::Event) {
        OutputTy::ParamType(ParamTy::I64).to_vcc_type()
    } else {
        info.output_ty.to_vcc_type()
    }
}

fn signature(names: &Names, info: &FuncInfo, l: &Lists, hdr: &str, with_name: bool) -> (r: String)
    requires
        names_fit(*names, *info),
        hdr@ == spec_output_hdr(*info),
    ensures
        r@ == spec_signature(*names, *info, lists_view(*l), with_name),
{
    let mut s = "unsafe extern \"C\" fn ".to_string();
    if with_name {
        s = app(s, names.wrapper_fn_name().as_str());
    }
    s = app(app(app(s, "("), join_texts(&l.wrap_fn_arg_decl, ", ").as_str()), ") ");
    if !str_eq(hdr, "VCL_VOID") {
        s = app(app(s, "-> "), hdr);
    }
    proof {
        let want = spec_signature(*names, *info, lists_view(*l), with_name);
        assert(s@ =~= want);
    }
    s
}

fn may_fail(info: &FuncInfo, hdr: &str) -> (r: bool)
    requires
        hdr@ == spec_output_hdr(*info),
    ensures
        r == spec_may_fail(*info),
{
    let mut any = false;
    let mut i: usize = 0;
    while i < info.args.len()
        invariant
            i <= info.args@.len(),
            any == any_try_from(info.args@.take(i as int)),
        decreases info.args.len() - i,
    {
        assert(info.args@.take(i + 1).drop_last() =~= info.args@.take(i as int));
        let t = match &info.args[i].ty {
            ParamType::VclName(pi) | ParamType::Value(pi) => pi.ty_info.use_try_from(),
            _ => false,
        };
        any = any || t;
        i = i + 1;
    }
    assert(info.args@.take(info.args@.len() as int) =~= info.args@);
    any || info.out_result
        || (!str_eq(hdr, "VCL_VOID") && !matches!(info.output_ty, OutputTy::Default | OutputTy::VclType(_)))
}

fn result_parts(names: &Names, info: &FuncInfo, l: &Lists, hdr: &str) -> (r: (Vec<String>, String, bool))
    requires
        names_fit(*names, *info),
        hdr@ == spec_output_hdr(*info),
    ensures
        (texts(r.0@), r.1@, r.2) == spec_result_parts(*names, *info, lists_view(*l)),
{
    let mut steps: Vec<String> = Vec::new();
    if matches!(info.func_type, FuncType::Destructor) {
        assert(texts(steps@) =~= Seq::<Seq<char>>::empty());
        return (steps, String::new(), l.needs_ctx);
    }
    let mut needs_ctx = l.needs_ctx;
    let is_void = str_eq(hdr, "VCL_VOID");
    let mut call = app(names.fn_callable_name(info.func_type), "(");
    call = app(call, join(&l.call_vars, ", ").as_str());
    call = app(call, ")");
    if info.out_result {
        call = app(call, "?");
    }
    if matches!(info.func_type, FuncType::Event) {
        push_text(&mut steps, app(call, ";"));
        call = "VCL_INT(0)".to_string();
    } else if !is_void && !matches!(info.output_ty, OutputTy::VclType(_)) {
        needs_ctx = true;
        call = app(call, ".into_vcl(&mut __ctx.ws)?");
    }
    if matches!(info.func_type, FuncType::Constructor) {
        push_text(&mut steps, app(cat("let __result = Box::new( ", call.as_str()), " ); *__objp = Box::into_raw(__result);"));
        call = String::new();
    }
    proof {
        let want = spec_result_parts(*names, *info, lists_view(*l));
        assert(texts(steps@) =~= want.0);
    }
    (steps, call, needs_ctx)
}

fn result(names: &Names, info: &FuncInfo, l: &Lists, hdr: &str) -> (r: (String, bool))
    requires
        names_fit(*names, *info),
        hdr@ == spec_output_hdr(*info),
    ensures
        (r.0@, r.1) == spec_result(*names, *info, lists_view(*l)),
{
    let (steps, value, ctx) = result_parts(names, info, l, hdr);
    let st = each(&steps, " ");
    let after = each(&l.after_call, " ");
    if may_fail(info, hdr) {
        let err = if str_eq(hdr, "VCL_VOID") {
            String::new()
        } else if matches!(info.func_type, FuncType::Event) {
            "VCL_INT(1)".to_string()
        } else {
            "Default::default()".to_string()
        };
        let v = if value.as_str().is_empty() { "()".to_string() } else { value };
        let mut lambda = cat("let mut __call_user_func = || -> Result<_, ::varnish::vcl::VclError> { ", st.as_str());
        lambda = app(lambda, "Ok( ");
        lambda = app(lambda, v.as_str());
        lambda = app(lambda, " ) }");
        let mut res = lambda;
        if l.after_call.len() == 0 {
            res = app(res, "; __call_user_func()");
        } else {
            res = app(res, "; let __result = __call_user_func(); ");
            res = app(res, after.as_str());
            res = app(res, "__result");
        }
        let mut out = app(res, ".unwrap_or_else(|err| { __ctx.fail(err); ");
        out = app(out, err.as_str());
        out = app(out, " })");
        proof {
            let want = spec_result(*names, *info, lists_view(*l));
            assert(out@ =~= want.0);
        }
        (out, true)
    } else if l.after_call.len() == 0 {
        (cat(st.as_str(), value.as_str()), ctx)
    } else if value.as_str().is_empty() {
        (cat(st.as_str(), after.as_str()), ctx)
    } else {
        let mut out = cat(st.as_str(), "let __result = ");
        out = app(out, value.as_str());
        out = app(out, "; ");
        out = app(out, after.as_str());
        out = app(out, "__result");
        proof {
            let want = spec_result(*names, *info, lists_view(*l));
            assert(out@ =~= want.0);
        }
        (out, ctx)
    }
}

/// The wrapper of the function, as Rust source text.
fn gen_callback_fn(names: &Names, info: &FuncInfo, l: &Lists, hdr: &str) -> (r: String)
    requires
        names_fit(*names, *info),
        hdr@ == spec_output_hdr(*info),
    ensures
        r@ == spec_callback(*names, *info, lists_view(*l)),
{
    let opt_struct = if info.has_optional_args {
        let mut a = cat("#[repr(C)] struct ", names.arg_struct_name().as_str());
        a = app(a, " { ");
        a = app(a, each(&l.opt_args_arg_decl, ", ").as_str());
        app(a, "}")
    } else {
        String::new()
    };
    let sig = signature(names, info, l, hdr, true);
    let (res, ctx) = result(names, info, l, hdr);
    let create_ctx = if ctx { "let mut __ctx = Ctx::from_ptr(__ctx); ".to_string() } else { String::new() };
    let mut out = app(opt_struct, " ");
    out = app(out, sig.as_str());
    out = app(out, " { ");
    out = app(out, create_ctx.as_str());
    out = app(out, each(&l.pre_call, " ").as_str());
    out = app(out, res.as_str());
    out = app(out, " }");
    proof {
        let want = spec_callback(*names, *info, lists_view(*l));
        assert(out@ =~= want);
    }
    out
}

/// The C arguments of the prototype, one per line.
fn c_args(xs: &Vec<String>) -> (r: String)
    ensures
        r@ == spec_c_args(texts(xs@)),
{
    if xs.len() == 0 {
        String::new()
    } else {
        cat("\n    ", join(xs, ",\n    ").as_str())
    }
}

/// The function's part of the C prototype: the line in the structure of exported functions, and
/// the declaration of its type.
fn gen_cproto(names: &Names, info: &FuncInfo, l: &Lists, hdr: &str) -> (r: (String, String))
    requires
        names_fit(*names, *info),
        hdr@ == spec_output_hdr(*info),
    ensures
        (r.0@, r.1@) == spec_cproto(*names, *info, lists_view(*l)),
{
    let (td_name, decl) = if matches!(info.func_type, FuncType::Event) {
        ("vmod_event_f".to_string(), String::new())
    } else {
        let mut decl = "\n".to_string();
        if info.has_optional_args {
            decl = app(decl, "struct ");
            decl = app(decl, names.arg_struct_name().as_str());
            decl = app(decl, " {\n");
            decl = app(decl, wrap_each(&l.cproto_opt_arg_decl, "  ", ";\n").as_str());
            decl = app(decl, "};\n\n");
        }
        let td = names.typedef_name();
        decl = app(decl, "typedef ");
        decl = app(decl, hdr);
        decl = app(decl, " ");
        decl = app(decl, td.as_str());
        decl = app(decl, "(");
        decl = app(decl, c_args(&l.cproto_fn_arg_decl).as_str());
        if info.has_optional_args {
            decl = app(decl, ",\n    struct ");
            decl = app(decl, names.arg_struct_name().as_str());
            decl = app(decl, " *");
        } else {
            decl = app(decl, wrap_each(&l.cproto_wrapper_args, ",\n    ", "").as_str());
        }
        decl = app(decl, "\n);\n");
        proof {
            reveal_strlit("");
            assert(""@ =~= Seq::<char>::empty());
            let p = lists_view(*l);
            let n = *names;
            let head = "\n"@ + if info.has_optional_args {
                "struct "@ + arg_struct_of(n) + " {\n"@ + spec_wrap_each(p.cproto_opt_arg_decl, "  "@, ";\n"@) + "};\n\n"@
            } else {
                Seq::empty()
            };
            let tail = if info.has_optional_args {
                ",\n    struct "@ + arg_struct_of(n) + " *"@
            } else {
                spec_wrap_each(p.cproto_wrapper_args, ",\n    "@, Seq::empty())
            };
            assert(decl@ =~= head + "typedef "@ + spec_output_hdr(*info) + " "@ + typedef_name_of(n) + "("@
                + spec_c_args(p.cproto_fn_arg_decl) + tail + "\n);\n"@);
        }
        (td, decl)
    };
    let mut init = cat("  ", td_name.as_str());
    init = app(init, " *");
    init = app(init, names.f_fn_name().as_str());
    init = app(init, ";\n");
    proof {
        let want = spec_cproto(*names, *info, lists_view(*l));
        assert(init@ =~= want.0);
        assert(decl@ == want.1);
    }
    (init, decl)
}

/// The JSON of the function, from the JSON of its arguments.
fn json_func(names: &Names, info: &FuncInfo, args_json: Vec<Json>, vcc: &str) -> (j: Json)
    requires
        names_fit(*names, *info),
        vcc@ == spec_output_vcc(*info),
    ensures
        json_view(j) == spec_func_json(*names, *info, FuncPlan { args_json: jsons_view(args_json@), ..empty_plan() }),
{
    let callback = app(app(names.func_struct_name(), "."), names.f_fn_name().as_str());
    let args_struct = if info.has_optional_args {
        cat("struct ", names.arg_struct_name().as_str())
    } else {
        String::new()
    };
    let mut out_items: Vec<Json> = Vec::new();
    out_items.push(str_json(vcc));
    let ghost ov = jsons_view(out_items@);
    let mut decl: Vec<Json> = Vec::new();
    decl.push(arr(out_items));
    decl.push(str_json(callback.as_str()));
    decl.push(str_json(args_struct.as_str()));
    let ghost d0 = jsons_view(decl@);
    let ghost av = jsons_view(args_json@);
    let mut rest = args_json;
    decl.append(&mut rest);
    assert(jsons_view(decl@) =~= d0 + av);
    let ghost dv = jsons_view(decl@);
    let kind = str_json(info.func_type.to_vcc_type());
    let mut top: Vec<Json> = Vec::new();
    top.push(kind);
    match info.func_type {
        FuncType::Function | FuncType::Method => {
            top.push(str_json(names.fn_name()));
            top.push(arr(decl));
        },
        FuncType::Constructor | FuncType::Destructor => {
            top.push(arr(decl));
        },
        FuncType::Event => {
            top.push(str_json(callback.as_str()));
        },
    }
    let ghost tv = jsons_view(top@);
    let j = arr(top);
    proof {
        let kv = JsonV::Str(spec_func_vcc_type(info.func_type));
        assert(ov =~= seq![JsonV::Str(spec_output_vcc(*info))]);
        let dw = seq![JsonV::Arr(seq![JsonV::Str(spec_output_vcc(*info))]), JsonV::Str(callback@), JsonV::Str(args_struct@)] + av;
        assert(dv =~= dw);
        match info.func_type {
            FuncType::Function | FuncType::Method => assert(tv =~= seq![kv, JsonV::Str(names.spec_fn_name()), JsonV::Arr(dw)]),
            FuncType::Constructor | FuncType::Destructor => assert(tv =~= seq![kv, JsonV::Arr(dw)]),
            FuncType::Event => assert(tv =~= seq![kv, JsonV::Str(callback@)]),
        }
    }
    j
}

/// The field of the structure of exported functions that holds the wrapper.
pub open spec fn spec_export_decl(n: Names, info: FuncInfo, p: FuncPlan) -> Seq<char> {
    wrapper_name_of(n) + ": Option< "@ + spec_signature(n, info, p, false) + " >"@
}

/// The initializer of that field.
pub open spec fn spec_export_init(n: Names) -> Seq<char> {
    wrapper_name_of(n) + ": Some("@ + wrapper_name_of(n) + ")"@
}

/// What the VMOD exports for one function, method or event handler.
pub struct FuncProcessor {
    /// The names of the function's items
    pub names: Names,
    /// The declaration of the function's type in the C prototype
    pub cproto_typedef_decl: String,
    /// The function's line in the C structure of exported functions
    pub cproto_typedef_init: String,
    /// The field of the Rust structure of exported functions
    pub export_decl: String,
    /// The initializer of that field
    pub export_init: String,
    /// The wrapper, as Rust source text
    pub wrapper_function_body: String,
    /// The JSON of the function
    pub json: Json,
}

/// `r` is what the VMOD exports for the function `info`, made with the names `r.names`.
pub open spec fn func_proc_ok(r: FuncProcessor, info: FuncInfo, shared: SharedTypes) -> bool {
    let names = r.names;
    let p = spec_plan(names, info, shared);
    &&& names_fit(names, info)
    &&& names.spec_function().unwrap().1 == info.ident@
    &&& r.export_decl@ == spec_export_decl(names, info, p)
    &&& r.export_init@ == spec_export_init(names)
    &&& r.wrapper_function_body@ == spec_callback(names, info, p)
    &&& (r.cproto_typedef_init@, r.cproto_typedef_decl@) == spec_cproto(names, info, p)
    &&& json_view(r.json) == spec_func_json(names, info, p)
}

impl FuncProcessor {
    /// Gathers what the function's kind and arguments need, then writes the wrapper, its C
    /// prototype and its JSON.
    pub fn from_info(names: Names, info: &FuncInfo, shared_types: &SharedTypes) -> (r: Self)
        requires
            names_fit(names, *info),
            output_ty_wf(info.output_ty),
        ensures
            ({
                let p = spec_plan(names, *info, *shared_types);
                &&& r.export_decl@ == spec_export_decl(names, *info, p)
                &&& r.export_init@ == spec_export_init(names)
                &&& r.wrapper_function_body@ == spec_callback(names, *info, p)
                &&& (r.cproto_typedef_init@, r.cproto_typedef_decl@) == spec_cproto(names, *info, p)
                &&& json_view(r.json) == spec_func_json(names, *info, p)
            }),
            r.names == names,
            names.spec_function().unwrap().1 == info.ident@ ==> func_proc_ok(r, *info, *shared_types),
    {
        let l = plan(&names, info, shared_types);
        let hdr = out_ty_c(info);
        let vcc = out_ty_vcc(info);
        let wrapper = names.wrapper_fn_name();
        let sig = signature(&names, info, &l, hdr.as_str(), false);
        let mut export_decl = app(wrapper.clone(), ": Option< ");
        export_decl = app(export_decl, sig.as_str());
        export_decl = app(export_decl, " >");
        let mut export_init = app(wrapper.clone(), ": Some(");
        export_init = app(export_init, wrapper.as_str());
        export_init = app(export_init, ")");
        let body = gen_callback_fn(&names, info, &l, hdr.as_str());
        let (init, decl) = gen_cproto(&names, info, &l, hdr.as_str());
        let ghost p = lists_view(l);
        let json = json_func(&names, info, l.args_json, vcc.as_str());
        proof {
            assert(export_decl@ =~= spec_export_decl(names, *info, p));
            assert(export_init@ =~= spec_export_init(names));
        }
        FuncProcessor {
            names,
            cproto_typedef_decl: decl,
            cproto_typedef_init: init,
            export_decl,
            export_init,
            wrapper_function_body: body,
            json,
        }
    }
}

// ---------------------------------------------------------------------------------------------
// Laws of the generated wrappers

/// The JSON entry an argument adds to the description of its function: `["PRIV_TASK", name]` for
/// state shared per task, `["PRIV_VCL", name]` for read-only state shared per VCL load,
/// `["EVENT", name]` for the event, and for a value an entry that starts with the VCC name of
/// its type (`BOOL`, `DURATION`, `REAL`, `INT`, `PROBE`, `IP`, `STRING`) and its name; the other
/// kinds of arguments add no entry. The entries before it stay as they were.
pub proof fn lemma_arg_json_entry(p: FuncPlan, info: FuncInfo, arg: ParamTypeInfo)
    ensures
        ({
            let q = plan_param(p, info, arg).args_json;
            let a = JsonV::Str(arg.ident@);
            match arg.ty {
                ParamType::SharedPerTask => q == p.args_json.push(JsonV::Arr(seq![JsonV::Str("PRIV_TASK"@), a])),
                ParamType::SharedPerVclRef => q == p.args_json.push(JsonV::Arr(seq![JsonV::Str("PRIV_VCL"@), a])),
                ParamType::Event => q == p.args_json.push(JsonV::Arr(seq![JsonV::Str("EVENT"@), a])),
                ParamType::Value(pi) => {
                    &&& q.len() == p.args_json.len() + 1
                    &&& q.drop_last() == p.args_json
                    &&& q.last() matches JsonV::Arr(e) && e.len() >= 2 && e[1] == a && e[0] == JsonV::Str(match pi.ty_info {
                        ParamTy::Bool => "BOOL"@,
                        ParamTy::Duration => "DURATION"@,
                        ParamTy::F64 => "REAL"@,
                        ParamTy::I64 => "INT"@,
                        ParamTy::Probe | ParamTy::ProbeCow => "PROBE"@,
                        ParamTy::SocketAddr => "IP"@,
                        ParamTy::Str | ParamTy::CStr => "STRING"@,
                    })
                },
                _ => q == p.args_json,
            }
        }),
{
    match arg.ty {
        ParamType::Value(pi) => {
            let q = plan_param(p, info, arg).args_json;
            assert(q.drop_last() =~= p.args_json);
        },
        _ => {},
    }
}

/// An event handler that may fail reports the failure to Varnish: its wrapper returns
/// `VCL_INT(0)` when the handler succeeds, and when it fails, it fails the task and returns
/// `VCL_INT(1)`.
pub proof fn lemma_event_failure_code(n: Names, info: FuncInfo, p: FuncPlan)
    requires
        info.func_type is Event,
        spec_may_fail(info),
    ensures
        ({
            let r = spec_result(n, info, p).0;
            let fail = ".unwrap_or_else(|err| { __ctx.fail(err); VCL_INT(1) })"@;
            let ok = "Ok( VCL_INT(0) )"@;
            &&& r.len() >= fail.len() && r.skip(r.len() - fail.len()) == fail
            &&& exists|i: int| 0 <= i && i + ok.len() <= r.len() && #[trigger] r.subrange(i, i + ok.len()) == ok
        }),
{
    reveal_strlit("VCL_INT");
    reveal_strlit("VCL_VOID");
    reveal_strlit("INT");
    reveal_strlit("VCL_");
    crate::model::lemma_output_c_type(spec_out_ty(info));
    assert(spec_output_hdr(info) =~= "VCL_INT"@);
    assert(spec_output_hdr(info) != "VCL_VOID"@) by {
        assert(spec_output_hdr(info)[5] != "VCL_VOID"@[5]);
    }
    let (steps, value, ctx) = spec_result_parts(n, info, p);
    assert(value == "VCL_INT(0)"@);
    let st = spec_each(steps, " "@);
    let after = spec_each(p.after_call, " "@);
    let head = "let mut __call_user_func = || -> Result<_, ::varnish::vcl::VclError> { "@ + st;
    let lambda = head + "Ok( "@ + value + " ) }"@;
    let fail = ".unwrap_or_else(|err| { __ctx.fail(err); VCL_INT(1) })"@;
    let ok = "Ok( VCL_INT(0) )"@;
    reveal_strlit("Ok( VCL_INT(0) )");
    reveal_strlit("Ok( ");
    reveal_strlit(" ) }");
    reveal_strlit("VCL_INT(0)");
    let res = if p.after_call.len() == 0 {
        lambda + "; __call_user_func()"@
    } else {
        lambda + "; let __result = __call_user_func(); "@ + after + "__result"@
    };
    let r = spec_result(n, info, p).0;
    assert(r == res + ".unwrap_or_else(|err| { __ctx.fail(err); "@ + "VCL_INT(1)"@ + " })"@);
    reveal_strlit(".unwrap_or_else(|err| { __ctx.fail(err); VCL_INT(1) })");
    reveal_strlit(".unwrap_or_else(|err| { __ctx.fail(err); ");
    reveal_strlit("VCL_INT(1)");
    reveal_strlit(" })");
    assert(r.skip(r.len() - fail.len()) =~= fail);
    let i = head.len() as int;
    assert(r.subrange(i, i + ok.len()) =~= ok);
}

/// State shared per task goes back into its `vmod_priv` with the cleanup methods of per-task
/// state, `PRIV_TASK_METHODS`, after the call.
pub proof fn lemma_task_state_put_back(p: FuncPlan, info: FuncInfo, arg: ParamTypeInfo)
    requires
        arg.ty is SharedPerTask,
    ensures
        ({
            let q = plan_param(p, info, arg).after_call;
            let tail = ".put(obj, &PRIV_TASK_METHODS); }"@;
            &&& q.len() == p.after_call.len() + 1
            &&& q.last().len() >= tail.len() && q.last().skip(q.last().len() - tail.len()) == tail
        }),
{
    let q = plan_param(p, info, arg).after_call;
    let av = spec_arg_value(info, arg.ident@);
    reveal_strlit("); (* ");
    reveal_strlit(").put(obj, &PRIV_TASK_METHODS); }");
    reveal_strlit(".put(obj, &PRIV_TASK_METHODS); }");
    assert(q.last() =~= "if let Some(obj) = __obj_per_task { (* "@ + av + ")"@ + ".put(obj, &PRIV_TASK_METHODS); }"@) by {
        reveal_strlit(")");
    }
    let tail = ".put(obj, &PRIV_TASK_METHODS); }"@;
    assert(q.last().skip(q.last().len() - tail.len()) =~= tail);
}

} // verus!
