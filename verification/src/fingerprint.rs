//! A canonical encoding of the model of a VMOD, as a JSON value: every field of every function,
//! argument and object, in order. Its text is what the file id hashes, so that two models with
//! the same encoding get the same id, and a change of any field changes the text hashed.
use vstd::prelude::*;
use crate::json::{Json, JsonV, json_view, jsons_view, arr, str_json};
use crate::model::{FuncInfo, FuncType, ObjInfo, OutputTy, ParamInfo, ParamKind, ParamTy, ParamType,
    ParamTypeInfo, VmodInfo, spec_func_vcc_type};
use crate::parser::{FuncInfoV, ObjInfoV, VmodInfoV, func_info_view, funcs_view, infos_view, obj_info_view,
    objects_view, vmod_info_view};
use crate::parser_args::{OutputTyV, ParamInfoV, ParamTypeInfoV, ParamTypeV, opt_str_view, output_ty_view,
    param_info_view, param_type_info_view, param_type_view};

verus! {

/// A string, or `null` for none.
pub open spec fn opt_json(o: Option<Seq<char>>) -> JsonV {
    match o {
        Some(s) => JsonV::Str(s),
        None => JsonV::Null,
    }
}

fn opt_to_json(o: &Option<String>) -> (r: Json)
    ensures
        json_view(r) == opt_json(opt_str_view(*o)),
{
    match o {
        Some(s) => str_json(s.as_str()),
        None => Json::Null,
    }
}

/// The name of a basic VCL type, as the model writes it.
pub open spec fn param_ty_name(t: ParamTy) -> Seq<char> {
    match t {
        ParamTy::Bool => "Bool"@,
        ParamTy::Duration => "Duration"@,
        ParamTy::F64 => "F64"@,
        ParamTy::I64 => "I64"@,
        ParamTy::Probe => "Probe"@,
        ParamTy::ProbeCow => "ProbeCow"@,
        ParamTy::SocketAddr => "SocketAddr"@,
        ParamTy::Str => "Str"@,
        ParamTy::CStr => "CStr"@,
    }
}

fn param_ty_str(t: ParamTy) -> (r: &'static str)
    ensures
        r@ == param_ty_name(t),
{
    match t {
        ParamTy::Bool => "Bool",
        ParamTy::Duration => "Duration",
        ParamTy::F64 => "F64",
        ParamTy::I64 => "I64",
        ParamTy::Probe => "Probe",
        ParamTy::ProbeCow => "ProbeCow",
        ParamTy::SocketAddr => "SocketAddr",
        ParamTy::Str => "Str",
        ParamTy::CStr => "CStr",
    }
}

/// The name of an argument kind.
pub open spec fn param_kind_name(k: ParamKind) -> Seq<char> {
    match k {
        ParamKind::Regular => "Regular"@,
        ParamKind::Optional => "Optional"@,
        ParamKind::Required => "Required"@,
    }
}

fn param_kind_str(k: ParamKind) -> (r: &'static str)
    ensures
        r@ == param_kind_name(k),
{
    match k {
        ParamKind::Regular => "Regular",
        ParamKind::Optional => "Optional",
        ParamKind::Required => "Required",
    }
}

/// `[kind, default, type]`.
pub open spec fn param_info_json(p: ParamInfoV) -> JsonV {
    JsonV::Arr(seq![JsonV::Str(param_kind_name(p.0)), opt_json(p.1), JsonV::Str(param_ty_name(p.2))])
}

fn param_info_to_json(p: &ParamInfo) -> (r: Json)
    ensures
        json_view(r) == param_info_json(param_info_view(*p)),
{
    let mut v: Vec<Json> = Vec::new();
    v.push(str_json(param_kind_str(p.kind)));
    v.push(opt_to_json(&p.default));
    v.push(str_json(param_ty_str(p.ty_info)));
    let r = arr(v);
    assert(jsons_view(v@) =~= param_info_json(param_info_view(*p))->Arr_0);
    r
}

/// An argument type: its variant's name, then what the variant holds.
pub open spec fn param_type_json(t: ParamTypeV) -> JsonV {
    match t {
        ParamTypeV::Context { is_mut } => JsonV::Arr(seq![JsonV::Str("Context"@), JsonV::Bool(is_mut)]),
        ParamTypeV::Workspace { is_mut } => JsonV::Arr(seq![JsonV::Str("Workspace"@), JsonV::Bool(is_mut)]),
        ParamTypeV::SelfType => JsonV::Arr(seq![JsonV::Str("SelfType"@)]),
        ParamTypeV::Event => JsonV::Arr(seq![JsonV::Str("Event"@)]),
        ParamTypeV::VclName(p) => JsonV::Arr(seq![JsonV::Str("VclName"@), param_info_json(p)]),
        ParamTypeV::SharedPerTask => JsonV::Arr(seq![JsonV::Str("SharedPerTask"@)]),
        ParamTypeV::SharedPerVclRef => JsonV::Arr(seq![JsonV::Str("SharedPerVclRef"@)]),
        ParamTypeV::SharedPerVclMut => JsonV::Arr(seq![JsonV::Str("SharedPerVclMut"@)]),
        ParamTypeV::FetchFilters => JsonV::Arr(seq![JsonV::Str("FetchFilters"@)]),
        ParamTypeV::DeliveryFilters => JsonV::Arr(seq![JsonV::Str("DeliveryFilters"@)]),
        ParamTypeV::Value(p) => JsonV::Arr(seq![JsonV::Str("Value"@), param_info_json(p)]),
    }
}

fn param_type_to_json(t: &ParamType) -> (r: Json)
    ensures
        json_view(r) == param_type_json(param_type_view(*t)),
{
    let mut v: Vec<Json> = Vec::new();
    match t {
        ParamType::Context { is_mut } => {
            v.push(str_json("Context"));
            v.push(Json::Bool(*is_mut));
        },
        ParamType::Workspace { is_mut } => {
            v.push(str_json("Workspace"));
            v.push(Json::Bool(*is_mut));
        },
        ParamType::SelfType => v.push(str_json("SelfType")),
        ParamType::Event => v.push(str_json("Event")),
        ParamType::VclName(p) => {
            v.push(str_json("VclName"));
            v.push(param_info_to_json(p));
        },
        ParamType::SharedPerTask => v.push(str_json("SharedPerTask")),
        ParamType::SharedPerVclRef => v.push(str_json("SharedPerVclRef")),
        ParamType::SharedPerVclMut => v.push(str_json("SharedPerVclMut")),
        ParamType::FetchFilters => v.push(str_json("FetchFilters")),
        ParamType::DeliveryFilters => v.push(str_json("DeliveryFilters")),
        ParamType::Value(p) => {
            v.push(str_json("Value"));
            v.push(param_info_to_json(p));
        },
    }
    let r = arr(v);
    assert(jsons_view(v@) =~= param_type_json(param_type_view(*t))->Arr_0);
    r
}

/// An argument: `[name, docs, type]`.
pub open spec fn arg_json(a: ParamTypeInfoV) -> JsonV {
    JsonV::Arr(seq![JsonV::Str(a.0), JsonV::Str(a.1), param_type_json(a.2)])
}

fn arg_to_json(a: &ParamTypeInfo) -> (r: Json)
    ensures
        json_view(r) == arg_json(param_type_info_view(*a)),
{
    let mut v: Vec<Json> = Vec::new();
    v.push(str_json(a.ident.as_str()));
    v.push(str_json(a.docs.as_str()));
    v.push(param_type_to_json(&a.ty));
    let r = arr(v);
    assert(jsons_view(v@) =~= arg_json(param_type_info_view(*a))->Arr_0);
    r
}

/// An output type: its variant's name, then what the variant holds.
pub open spec fn output_json(o: OutputTyV) -> JsonV {
    match o {
        OutputTyV::BackendHandle => JsonV::Arr(seq![JsonV::Str("BackendHandle"@)]),
        OutputTyV::Default => JsonV::Arr(seq![JsonV::Str("Default"@)]),
        OutputTyV::SelfType => JsonV::Arr(seq![JsonV::Str("SelfType"@)]),
        OutputTyV::ParamType(p) => JsonV::Arr(seq![JsonV::Str("ParamType"@), JsonV::Str(param_ty_name(p))]),
        OutputTyV::String => JsonV::Arr(seq![JsonV::Str("String"@)]),
        OutputTyV::Bytes => JsonV::Arr(seq![JsonV::Str("Bytes"@)]),
        OutputTyV::VclType(n) => JsonV::Arr(seq![JsonV::Str("VclType"@), JsonV::Str(n)]),
    }
}

fn output_to_json(o: &OutputTy) -> (r: Json)
    ensures
        json_view(r) == output_json(output_ty_view(*o)),
{
    let mut v: Vec<Json> = Vec::new();
    match o {
        OutputTy::BackendHandle => v.push(str_json("BackendHandle")),
        OutputTy::Default => v.push(str_json("Default")),
        OutputTy::SelfType => v.push(str_json("SelfType")),
        OutputTy::ParamType(p) => {
            v.push(str_json("ParamType"));
            v.push(str_json(param_ty_str(*p)));
        },
        OutputTy::String => v.push(str_json("String")),
        OutputTy::Bytes => v.push(str_json("Bytes")),
        OutputTy::VclType(n) => {
            v.push(str_json("VclType"));
            v.push(str_json(n.as_str()));
        },
    }
    let r = arr(v);
    assert(jsons_view(v@) =~= output_json(output_ty_view(*o))->Arr_0);
    r
}

/// A function: `[kind, name, docs, has optional arguments, arguments, output, returns Result]`.
pub open spec fn func_json(f: FuncInfoV) -> JsonV {
    JsonV::Arr(seq![JsonV::Str(spec_func_vcc_type(f.0)), JsonV::Str(f.1), JsonV::Str(f.2), JsonV::Bool(f.3),
        JsonV::Arr(f.4.map_values(|a: ParamTypeInfoV| arg_json(a))), output_json(f.5), JsonV::Bool(f.6)])
}

fn func_to_json(f: &FuncInfo) -> (r: Json)
    ensures
        json_view(r) == func_json(func_info_view(*f)),
{
    let ghost args = infos_view(f.args@);
    let mut a: Vec<Json> = Vec::new();
    let mut i: usize = 0;
    while i < f.args.len()
        invariant
            i <= f.args@.len(),
            args == infos_view(f.args@),
            jsons_view(a@) == args.take(i as int).map_values(|x: ParamTypeInfoV| arg_json(x)),
        decreases f.args.len() - i,
    {
        let ghost before = jsons_view(a@);
        a.push(arg_to_json(&f.args[i]));
        assert(jsons_view(a@) =~= before.push(arg_json(args[i as int])));
        assert(args.take(i + 1).map_values(|x: ParamTypeInfoV| arg_json(x))
            =~= args.take(i as int).map_values(|x: ParamTypeInfoV| arg_json(x)).push(arg_json(args[i as int])));
        i = i + 1;
    }
    assert(args.take(args.len() as int) =~= args);
    let args_json = arr(a);
    let mut v: Vec<Json> = Vec::new();
    v.push(str_json(f.func_type.to_vcc_type()));
    v.push(str_json(f.ident.as_str()));
    v.push(str_json(f.docs.as_str()));
    v.push(Json::Bool(f.has_optional_args));
    v.push(args_json);
    v.push(output_to_json(&f.output_ty));
    v.push(Json::Bool(f.out_result));
    let r = arr(v);
    assert(jsons_view(v@) =~= func_json(func_info_view(*f))->Arr_0);
    r
}

fn funcs_to_json(fs: &Vec<FuncInfo>) -> (r: Json)
    ensures
        json_view(r) == JsonV::Arr(funcs_view(fs@).map_values(|x: FuncInfoV| func_json(x))),
{
    let ghost fv = funcs_view(fs@);
    let mut a: Vec<Json> = Vec::new();
    let mut i: usize = 0;
    while i < fs.len()
        invariant
            i <= fs@.len(),
            fv == funcs_view(fs@),
            jsons_view(a@) == fv.take(i as int).map_values(|x: FuncInfoV| func_json(x)),
        decreases fs.len() - i,
    {
        let ghost before = jsons_view(a@);
        a.push(func_to_json(&fs[i]));
        assert(jsons_view(a@) =~= before.push(func_json(fv[i as int])));
        assert(fv.take(i + 1).map_values(|x: FuncInfoV| func_json(x))
            =~= fv.take(i as int).map_values(|x: FuncInfoV| func_json(x)).push(func_json(fv[i as int])));
        i = i + 1;
    }
    assert(fv.take(fv.len() as int) =~= fv);
    arr(a)
}

/// An object: `[name, docs, constructor, destructor, methods]`.
pub open spec fn obj_json(o: ObjInfoV) -> JsonV {
    JsonV::Arr(seq![JsonV::Str(o.0), JsonV::Str(o.1), func_json(o.2), func_json(o.3),
        JsonV::Arr(o.4.map_values(|x: FuncInfoV| func_json(x)))])
}

fn obj_to_json(o: &ObjInfo) -> (r: Json)
    ensures
        json_view(r) == obj_json(obj_info_view(*o)),
{
    let mut v: Vec<Json> = Vec::new();
    v.push(str_json(o.ident.as_str()));
    v.push(str_json(o.docs.as_str()));
    v.push(func_to_json(&o.constructor));
    v.push(func_to_json(&o.destructor));
    v.push(funcs_to_json(&o.funcs));
    let r = arr(v);
    assert(jsons_view(v@) =~= obj_json(obj_info_view(*o))->Arr_0);
    r
}

/// The encoding of a model: `[docs of the parameters, name, docs, functions, objects, type shared
/// per task, type shared per VCL load]`.
pub open spec fn spec_model_json(v: VmodInfoV) -> JsonV {
    JsonV::Arr(seq![opt_json(v.0), JsonV::Str(v.1), JsonV::Str(v.2),
        JsonV::Arr(v.3.map_values(|x: FuncInfoV| func_json(x))),
        JsonV::Arr(v.4.map_values(|x: ObjInfoV| obj_json(x))),
        opt_json(v.5.0), opt_json(v.5.1)])
}

/// The canonical encoding of the model.
pub fn model_json(info: &VmodInfo) -> (r: Json)
    ensures
        json_view(r) == spec_model_json(vmod_info_view(*info)),
{
    let ghost ov = objects_view(info.objects@);
    let mut objs: Vec<Json> = Vec::new();
    let mut i: usize = 0;
    while i < info.objects.len()
        invariant
            i <= info.objects@.len(),
            ov == objects_view(info.objects@),
            jsons_view(objs@) == ov.take(i as int).map_values(|x: ObjInfoV| obj_json(x)),
        decreases info.objects.len() - i,
    {
        let ghost before = jsons_view(objs@);
        objs.push(obj_to_json(&info.objects[i]));
        assert(jsons_view(objs@) =~= before.push(obj_json(ov[i as int])));
        assert(ov.take(i + 1).map_values(|x: ObjInfoV| obj_json(x))
            =~= ov.take(i as int).map_values(|x: ObjInfoV| obj_json(x)).push(obj_json(ov[i as int])));
        i = i + 1;
    }
    assert(ov.take(ov.len() as int) =~= ov);
    let mut v: Vec<Json> = Vec::new();
    v.push(opt_to_json(&info.params.docs));
    v.push(str_json(info.ident.as_str()));
    v.push(str_json(info.docs.as_str()));
    v.push(funcs_to_json(&info.funcs));
    v.push(arr(objs));
    v.push(opt_to_json(&info.shared_types.shared_per_task_ty));
    v.push(opt_to_json(&info.shared_types.shared_per_vcl_ty));
    let r = arr(v);
    assert(jsons_view(v@) =~= spec_model_json(vmod_info_view(*info))->Arr_0);
    r
}

} // verus!
