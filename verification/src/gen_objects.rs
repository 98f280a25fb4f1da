//! What the VMOD exports for an object: its functions, its C declaration and its JSON.
use vstd::prelude::*;
use crate::gen_func::{FuncProcessor, func_proc_ok};
use crate::json::{Json, JsonV, json_view, jsons_view, arr, str_json};
use crate::model::{FuncInfo, ObjInfo, SharedTypes, output_ty_wf};
use crate::names::Names;
use crate::parser::obj_output_wf;
use crate::text::cat;

verus! {

/// An object as the parser makes it: a constructor, a destructor, and methods, all with
/// well-formed outputs.
pub open spec fn obj_wf(o: ObjInfo) -> bool {
    &&& o.constructor.func_type is Constructor
    &&& o.destructor.func_type is Destructor
    &&& forall|i: int| 0 <= i < o.funcs@.len() ==> (#[trigger] o.funcs@[i]).func_type is Method
    &&& obj_output_wf(o)
}

/// The functions of an object in the order it exports them: constructor, destructor, methods.
pub open spec fn obj_export_order(o: ObjInfo) -> Seq<FuncInfo> {
    seq![o.constructor, o.destructor] + o.funcs@
}

/// The JSON of the functions.
pub open spec fn procs_json(fs: Seq<FuncProcessor>) -> Seq<JsonV> {
    fs.map_values(|f: FuncProcessor| json_view(f.json))
}

/// The JSON of an object: its name, that it may not be null, its C type, and its functions.
pub open spec fn spec_obj_json(n: Names, funcs: Seq<FuncProcessor>) -> JsonV {
    let struct_obj = "struct vmod_"@ + n.spec_module() + "_"@ + n.spec_object().unwrap();
    JsonV::Arr(seq![
        JsonV::Str("$OBJ"@),
        JsonV::Str(n.spec_object().unwrap()),
        JsonV::Obj(seq![("NULL_OK"@, JsonV::Bool(false))]),
        JsonV::Str(struct_obj),
    ] + procs_json(funcs))
}

/// What the VMOD exports for an object.
pub struct ObjProcessor {
    /// The names of the object's items
    pub names: Names,
    /// `struct vmod_foo_bar;` C code
    pub cproto_typedef_decl: String,
    /// The JSON of the object
    pub json: Json,
    /// Its functions: constructor, destructor, methods
    pub funcs: Vec<FuncProcessor>,
}

/// `r` is what the VMOD exports for the object `info`, made with the names `r.names`.
pub open spec fn obj_proc_ok(r: ObjProcessor, info: ObjInfo, shared: SharedTypes) -> bool {
    let order = obj_export_order(info);
    &&& r.names.spec_object() == Some(info.ident@)
    &&& r.names.spec_function() is None
    &&& r.funcs@.len() == order.len()
    &&& forall|k: int| 0 <= k < order.len() ==> {
        &&& func_proc_ok(#[trigger] r.funcs@[k], order[k], shared)
        &&& r.funcs@[k].names.spec_module() == r.names.spec_module()
        &&& r.funcs@[k].names.spec_object() == r.names.spec_object()
    }
    &&& r.cproto_typedef_decl@ == "\n"@ + "struct vmod_"@ + r.names.spec_module() + "_"@ + info.ident@ + ";\n"@
    &&& json_view(r.json) == spec_obj_json(r.names, r.funcs@)
}

impl ObjProcessor {
    pub fn from_info(names: Names, info: &ObjInfo, types: &SharedTypes) -> (r: Self)
        requires
            names.spec_object() == Some(info.ident@),
            names.spec_function() is None,
            obj_wf(*info),
        ensures
            obj_proc_ok(r, *info, *types),
            r.names == names,
    {
        let ghost order = obj_export_order(*info);
        let mut funcs: Vec<FuncProcessor> = Vec::new();
        let n0 = names.to_func(info.constructor.func_type, info.constructor.ident.as_str());
        funcs.push(FuncProcessor::from_info(n0, &info.constructor, types));
        let n1 = names.to_func(info.destructor.func_type, info.destructor.ident.as_str());
        funcs.push(FuncProcessor::from_info(n1, &info.destructor, types));
        assert(order[0] == info.constructor && order[1] == info.destructor);
        let mut k: usize = 0;
        while k < info.funcs.len()
            invariant
                order == obj_export_order(*info),
                obj_wf(*info),
                names.spec_object() == Some(info.ident@),
                names.spec_function() is None,
                k <= info.funcs@.len(),
                funcs@.len() == k + 2,
                forall|j: int| 0 <= j < k + 2 ==> {
                    &&& func_proc_ok(#[trigger] funcs@[j], order[j], *types)
                    &&& funcs@[j].names.spec_module() == names.spec_module()
                    &&& funcs@[j].names.spec_object() == names.spec_object()
                },
            decreases info.funcs.len() - k,
        {
            let f = &info.funcs[k];
            assert(*f == order[k + 2]);
            assert(output_ty_wf(info.funcs@[k as int].output_ty));
            let n = names.to_func(f.func_type, f.ident.as_str());
            let fp = FuncProcessor::from_info(n, f, types);
            funcs.push(fp);
            k = k + 1;
        }
        let struct_obj = names.struct_obj_name();
        let decl = cat(cat("\n", struct_obj.as_str()).as_str(), ";\n");
        let mut items: Vec<Json> = Vec::new();
        items.push(str_json("$OBJ"));
        items.push(str_json(names.obj_name()));
        let mut flags: Vec<(String, Json)> = Vec::new();
        flags.push(("NULL_OK".to_string(), Json::Bool(false)));
        assert(flags@.len() == 1 && flags@[0].0@ == "NULL_OK"@ && json_view(flags@[0].1) == JsonV::Bool(false));
        let flags_json = Json::Obj(flags);
        proof {
            assert(json_view(flags_json) is Obj);
            assert(json_view(flags_json)->Obj_0 =~= seq![("NULL_OK"@, JsonV::Bool(false))]);
        }
        items.push(flags_json);
        items.push(str_json(struct_obj.as_str()));
        let ghost head = jsons_view(items@);
        let mut i: usize = 0;
        while i < funcs.len()
            invariant
                i <= funcs@.len(),
                jsons_view(items@) == head + procs_json(funcs@).take(i as int),
            decreases funcs.len() - i,
        {
            let ghost before = jsons_view(items@);
            items.push(clone_out_json(&funcs[i]));
            assert(jsons_view(items@) =~= before.push(json_view(funcs@[i as int].json)));
            assert(procs_json(funcs@).take(i + 1) =~= procs_json(funcs@).take(i as int).push(json_view(funcs@[i as int].json)));
            i = i + 1;
        }
        assert(procs_json(funcs@).take(funcs@.len() as int) =~= procs_json(funcs@));
        let ghost iv = jsons_view(items@);
        let json = arr(items);
        let r = ObjProcessor { names, cproto_typedef_decl: decl, json, funcs };
        proof {
            let want = spec_obj_json(r.names, r.funcs@);
            assert(head =~= seq![
                JsonV::Str("$OBJ"@),
                JsonV::Str(names.spec_object().unwrap()),
                JsonV::Obj(seq![("NULL_OK"@, JsonV::Bool(false))]),
                JsonV::Str("struct vmod_"@ + names.spec_module() + "_"@ + names.spec_object().unwrap()),
            ]);
            assert(iv =~= want->Arr_0);
            assert(r.cproto_typedef_decl@ =~= "\n"@ + "struct vmod_"@ + r.names.spec_module() + "_"@ + info.ident@ + ";\n"@);
        }
        r
    }
}

/// A copy of the JSON of a function.
fn clone_out_json(f: &FuncProcessor) -> (r: Json)
    ensures
        json_view(r) == json_view(f.json),
{
    crate::json::clone_json(&f.json)
}

} // verus!
