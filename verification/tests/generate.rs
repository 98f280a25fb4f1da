use varnish::fingerprint::model_json;
use varnish::gen_func::{arg_to_json, FuncProcessor};
use varnish::generator::{calc_file_id, cstr_lit, file_id_of, frame_json_spec, gen_priv_struct, hex, Generator};
use varnish::json::Json;
use varnish::json_text::{json_compact, json_pretty};
use varnish::model::{FuncInfo, FuncType, OutputTy, ParamInfo, ParamKind, ParamTy, ParamType, ParamTypeInfo, SharedTypes, VmodInfo, VmodParams};
use varnish::names::Names;
use varnish::parser::{FnItem, Item, ItemKind, ModItem, Signature};
use varnish::parser_args::{FnArg, PatType};
use varnish::types::{PathArgs, PathSegment, Ty, TyKind};

fn to_value(j: &Json) -> serde_json::Value {
    match j {
        Json::Null => serde_json::Value::Null,
        Json::Bool(b) => serde_json::Value::Bool(*b),
        Json::Num(n) => serde_json::Value::from(*n),
        Json::Str(s) => serde_json::Value::String(s.clone()),
        Json::Arr(v) => serde_json::Value::Array(v.iter().map(to_value).collect()),
        Json::Obj(v) => {
            let mut m = serde_json::Map::new();
            for (k, x) in v {
                m.insert(k.clone(), to_value(x));
            }
            serde_json::Value::Object(m)
        }
    }
}

fn value_arg(name: &str, kind: ParamKind, ty: ParamTy, default: Option<&str>) -> ParamTypeInfo {
    ParamTypeInfo {
        ident: name.to_string(),
        docs: String::new(),
        ty: ParamType::Value(ParamInfo { kind, default: default.map(|d| d.to_string()), ty_info: ty }),
    }
}

fn is_even_info() -> FuncInfo {
    FuncInfo {
        func_type: FuncType::Function,
        ident: "is_even".to_string(),
        docs: String::new(),
        has_optional_args: false,
        args: vec![value_arg("n", ParamKind::Regular, ParamTy::I64, None)],
        output_ty: OutputTy::ParamType(ParamTy::Bool),
        out_result: false,
    }
}

#[test]
fn argument_json() {
    let a = arg_to_json("n", false, "INT", &None);
    assert_eq!(to_value(&a).to_string(), r#"["INT","n"]"#);
    let b = arg_to_json("s", false, "STRING", &Some("\"hi\"".to_string()));
    assert_eq!(to_value(&b).to_string(), r#"["STRING","s","\"hi\""]"#);
    let c = arg_to_json("o", true, "INT", &None);
    assert_eq!(to_value(&c).to_string(), r#"["INT","o",null,null,true]"#);
}

#[test]
fn function_exports() {
    let names = Names::new("example").to_func(FuncType::Function, "is_even");
    let f = FuncProcessor::from_info(names, &is_even_info(), &SharedTypes::new());
    assert_eq!(f.cproto_typedef_init, "  td_vmod_example_is_even *f_is_even;\n");
    assert_eq!(f.cproto_typedef_decl, "\ntypedef VCL_BOOL td_vmod_example_is_even(\n    VRT_CTX,\n    VCL_INT\n);\n");
    assert_eq!(
        to_value(&f.json).to_string(),
        r#"["$FUNC","is_even",[["BOOL"],"Vmod_vmod_example_Func.f_is_even","",["INT","n"]]]"#
    );
    assert_eq!(f.export_init, "vmod_c_is_even: Some(vmod_c_is_even)");
    let decl: syn::Field = syn::parse::Parser::parse_str(syn::Field::parse_named, &f.export_decl).unwrap();
    assert_eq!(decl.ident.unwrap().to_string(), "vmod_c_is_even");
    let body: syn::ItemFn = syn::parse_str(&f.wrapper_function_body).unwrap();
    assert_eq!(body.sig.ident.to_string(), "vmod_c_is_even");
    assert_eq!(body.sig.inputs.len(), 2);
}

#[test]
fn optional_arguments_structure() {
    let info = FuncInfo {
        func_type: FuncType::Function,
        ident: "opt".to_string(),
        docs: String::new(),
        has_optional_args: true,
        args: vec![value_arg("n", ParamKind::Optional, ParamTy::I64, None)],
        output_ty: OutputTy::Default,
        out_result: false,
    };
    let names = Names::new("example").to_func(FuncType::Function, "opt");
    let f = FuncProcessor::from_info(names, &info, &SharedTypes::new());
    assert_eq!(
        f.cproto_typedef_decl,
        "\nstruct arg_vmod_example_opt {\n  char valid_n;\n  VCL_INT n;\n};\n\ntypedef VCL_VOID td_vmod_example_opt(\n    VRT_CTX,\n    struct arg_vmod_example_opt *\n);\n"
    );
    assert_eq!(
        to_value(&f.json).to_string(),
        r#"["$FUNC","opt",[["VOID"],"Vmod_vmod_example_Func.f_opt","struct arg_vmod_example_opt",["INT","n",null,null,true]]]"#
    );
    let file: syn::File = syn::parse_str(&f.wrapper_function_body).unwrap();
    assert_eq!(file.items.len(), 2);
}

#[test]
fn hex_and_ids() {
    assert_eq!(hex(&[0x00, 0xff, 0x1a]), "00ff1a");
    assert_eq!(file_id_of(""), "e3b0c44298fc1c149afbf4c8996fb92427ae41e4649b934ca495991b7852b855");
    assert_eq!(file_id_of("abc"), "ba7816bf8f01cfea414140de5dae2223b00361a396177a9cb410ff61f20015ad");
}

#[test]
fn c_string_literals() {
    assert_eq!(cstr_lit("plain"), "c\"plain\"");
    assert_eq!(cstr_lit("a\"b\\c\nd\u{2}"), "c\"a\\\"b\\\\c\\nd\\u{02}\"");
    assert_eq!(frame_json_spec("[]"), "VMOD_JSON_SPEC\u{2}\n[]\n\u{3}");
    let s = gen_priv_struct("PRIV_TASK_METHODS", "MyState", false);
    let item: syn::ItemStatic = syn::parse_str(&s).unwrap();
    assert_eq!(item.ident.to_string(), "PRIV_TASK_METHODS");
}

fn module() -> ModItem {
    let ty = |n: &str| Ty {
        kind: TyKind::Path {
            qself: false,
            leading_colon: false,
            segments: vec![PathSegment { ident: n.to_string(), args: PathArgs::Plain }],
        },
        text: n.to_string(),
        span: 0,
    };
    let sig = Signature {
        ident: "is_even".to_string(),
        is_async: false,
        is_unsafe: false,
        output: Some(ty("bool")),
        inputs: vec![FnArg::Typed(PatType { pat_ident: Some("n".to_string()), ty: ty("i64"), attrs: vec![], span: 3 })],
        span: 2,
    };
    ModItem {
        ident: "example".to_string(),
        attrs: vec![],
        content: Some(vec![Item { kind: ItemKind::Fn(FnItem { sig, vis_public: true, attrs: vec![] }), span: 2 }]),
        span: 1,
    }
}

#[test]
fn generated_module() {
    let mut m = module();
    let info = VmodInfo::parse(VmodParams { docs: None }, &mut m).ok().unwrap();
    assert_eq!(calc_file_id(&info).len(), 64);
    let g = Generator::new(&info);
    assert_eq!(g.functions.len(), 1);
    let json = g.gen_json("Varnish 7.6.1 abcdef");
    let v = to_value(&json);
    assert_eq!(v[0][0], "$VMOD");
    assert_eq!(v[0][2], "example");
    assert_eq!(v[0][3], "Vmod_vmod_example_Func");
    assert_eq!(v[0][5], "Varnish 7.6.1 abcdef");
    assert_eq!(v[1][0], "$CPROTO");
    assert_eq!(
        v[1][1],
        "\ntypedef VCL_BOOL td_vmod_example_is_even(\n    VRT_CTX,\n    VCL_INT\n);\n\nstruct Vmod_vmod_example_Func {\n  td_vmod_example_is_even *f_is_even;\n};\n\nstatic struct Vmod_vmod_example_Func Vmod_vmod_example_Func;"
    );
    assert_eq!(v[2][1], "is_even");
    let pretty = serde_json::to_string_pretty(&v).unwrap();
    let spec = frame_json_spec(&pretty);
    let text = g.render_generated_mod(&info, &spec);
    assert_eq!(g.render_with_json(&info, &pretty), Some(text.clone()));
    assert_eq!(g.render_with_json(&info, "[\"a\0b\"]"), None);
    // the library's own pretty text of the description is serde_json's
    assert_eq!(json_pretty(&json), pretty);
    assert_eq!(g.render_text(&info, "Varnish 7.6.1 abcdef"), Some(text.clone()));
    assert_eq!(Generator::render(&info, "Varnish 7.6.1 abcdef"), Some(text.clone()));
    let parsed: syn::ItemMod = syn::parse_str(&text).unwrap();
    assert_eq!(parsed.ident.to_string(), "varnish_generated");
}

#[test]
fn json_texts_as_serde_json_writes_them() {
    let mut flags = Vec::new();
    flags.push(("NULL_OK".to_string(), Json::Bool(false)));
    let j = Json::Arr(vec![
        Json::Null,
        Json::Bool(true),
        Json::Num(18446744073709551615),
        Json::Str("q\"\\\n\u{7}é".to_string()),
        Json::Arr(vec![]),
        Json::Obj(vec![]),
        Json::Obj(flags),
        Json::Arr(vec![Json::Num(1), Json::Arr(vec![Json::Str("x".to_string())])]),
    ]);
    let v = to_value(&j);
    assert_eq!(json_pretty(&j), serde_json::to_string_pretty(&v).unwrap());
    assert_eq!(json_compact(&j), serde_json::to_string(&v).unwrap());
    // entries come in the order the object holds them
    let o = Json::Obj(vec![("b".to_string(), Json::Num(1)), ("a".to_string(), Json::Null)]);
    assert_eq!(json_compact(&o), "{\"b\":1,\"a\":null}");
    assert_eq!(json_pretty(&o), "{\n  \"b\": 1,\n  \"a\": null\n}");
}

#[test]
fn file_id_hashes_the_model_encoding() {
    let mut m = module();
    let info = VmodInfo::parse(VmodParams { docs: None }, &mut m).ok().unwrap();
    let id = calc_file_id(&info);
    assert_eq!(id, file_id_of(&json_compact(&model_json(&info))));
    assert_eq!(Generator::new(&info).file_id, id);
    let mut m2 = module();
    let other = VmodInfo::parse(VmodParams { docs: Some("docs".to_string()) }, &mut m2).ok().unwrap();
    assert_ne!(calc_file_id(&other), id);
    let text = json_compact(&model_json(&info));
    assert!(text.starts_with("[null,\"example\",\"\",[[\"$FUNC\",\"is_even\""));
}
