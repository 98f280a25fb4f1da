use varnish::docs::parse_doc_str;
use varnish::errors::{error, Errors};
use varnish::model::{FuncType, OutputTy, ParamTy, SharedTypes};
use varnish::names::Names;
use varnish::parser::err_msg_item_not_allowed;
use varnish::parser_args::FuncStatus;
use varnish::types::{Attr, AttrMeta};

fn doc(s: &str, orig: usize) -> Attr {
    Attr {
        ident: Some("doc".to_string()),
        meta: AttrMeta::NameValue { str_value: Some(s.to_string()) },
        orig,
        span: 0,
    }
}

#[test]
fn vcc_and_c_types() {
    assert_eq!(FuncType::Function.to_vcc_type(), "$FUNC");
    assert_eq!(FuncType::Constructor.to_vcc_type(), "$INIT");
    assert_eq!(FuncType::Destructor.to_vcc_type(), "$FINI");
    assert_eq!(FuncType::Method.to_vcc_type(), "$METHOD");
    assert_eq!(FuncType::Event.to_vcc_type(), "$EVENT");
    assert_eq!(ParamTy::F64.to_vcc_type(), "REAL");
    assert_eq!(ParamTy::SocketAddr.to_c_type(), "VCL_IP");
    assert_eq!(ParamTy::CStr.to_c_type(), "VCL_STRING");
    assert!(ParamTy::ProbeCow.must_be_optional());
    assert!(!ParamTy::Str.must_be_optional());
    assert!(ParamTy::Str.use_try_from());
    assert!(!ParamTy::CStr.use_try_from());
    assert_eq!(OutputTy::VclType("VCL_BACKEND".to_string()).to_vcc_type(), "BACKEND");
    assert_eq!(OutputTy::VclType("VCL_BACKEND".to_string()).to_c_type(), "VCL_BACKEND");
    assert_eq!(OutputTy::Default.to_c_type(), "VCL_VOID");
    assert_eq!(OutputTy::Bytes.to_vcc_type(), "STRING");
    assert_eq!(OutputTy::ParamType(ParamTy::Duration).to_c_type(), "VCL_DURATION");
    assert_eq!(OutputTy::VclType("VCL_lower9".to_string()).to_vcc_type(), "lower9");
    assert_eq!(OutputTy::VclType("abc_X".to_string()).to_vcc_type(), "X");
    for o in [OutputTy::String, OutputTy::SelfType, OutputTy::ParamType(ParamTy::I64), OutputTy::VclType("VCL_HTTP".to_string())] {
        assert_eq!(o.to_c_type(), format!("VCL_{}", o.to_vcc_type()));
    }
}

#[test]
fn shared_per_vcl_type() {
    let mut s = SharedTypes::new();
    assert_eq!(s.get_per_vcl_ty(), "()");
    s.shared_per_vcl_ty = Some("PerVcl".to_string());
    assert_eq!(s.get_per_vcl_ty(), "PerVcl");
}

#[test]
fn names_of_items() {
    let m = Names::new("example");
    assert_eq!(m.mod_name(), "example");
    assert_eq!(m.func_struct_name(), "Vmod_vmod_example_Func");
    assert_eq!(m.data_struct_name(), "Vmod_example_Data");
    let f = m.to_func(FuncType::Function, "is_even");
    assert_eq!(f.fn_name(), "is_even");
    assert_eq!(f.wrapper_fn_name(), "vmod_c_is_even");
    assert_eq!(f.arg_struct_name(), "arg_vmod_example_is_even");
    assert_eq!(f.typedef_name(), "td_vmod_example_is_even");
    assert_eq!(f.f_fn_name(), "f_is_even");
    assert_eq!(f.fn_callable_name(FuncType::Function), "super::is_even");
    let o = m.to_obj("kv");
    assert_eq!(o.obj_name(), "kv");
    assert_eq!(o.struct_obj_name(), "struct vmod_example_kv");
    assert_eq!(o.obj_access(), "super::kv");
    let c = o.to_func(FuncType::Constructor, "new");
    assert_eq!(c.fn_name(), "_init");
    assert_eq!(c.fn_name_user(), "new");
    assert_eq!(c.wrapper_fn_name(), "vmod_c_kv__init");
    assert_eq!(c.typedef_name(), "td_vmod_example_kv__init");
    assert_eq!(c.fn_callable_name(FuncType::Constructor), "super::kv::new");
    let d = o.to_func(FuncType::Destructor, "_fini");
    assert_eq!(d.f_fn_name(), "f_kv__fini");
    let meth = o.to_func(FuncType::Method, "get");
    assert_eq!(meth.fn_callable_name(FuncType::Method), "__obj.get");
    assert_eq!(meth.arg_struct_name(), "arg_vmod_example_kv_get");
}

#[test]
fn doc_strings() {
    let attrs = vec![doc(" First line", 0), doc("", 1), doc("  second", 2), doc("", 3)];
    assert_eq!(parse_doc_str(&attrs), "First line\n\nsecond");
    let starred = vec![doc("*", 0), doc(" * one", 1), doc(" * two", 2)];
    assert_eq!(parse_doc_str(&starred), "one\ntwo");
    assert_eq!(parse_doc_str(&vec![]), "");
}

#[test]
fn error_lists() {
    let mut e = Errors::new();
    assert!(e.is_empty());
    e.add(3, "first");
    e.combine(error(4, "second"));
    let d = e.into_diags();
    assert_eq!(d.len(), 2);
    assert_eq!((d[0].span, d[0].msg.as_str()), (3, "first"));
    assert_eq!((d[1].span, d[1].msg.as_str()), (4, "second"));
}

#[test]
fn item_messages_and_status() {
    assert_eq!(
        err_msg_item_not_allowed("Structs"),
        "Structs are not allowed inside a `mod` tagged with `#[varnish::vmod]`.  Move it to an outer scope and keep just the `impl` block. More than one `impl` blocks are allowed."
    );
    let s = FuncStatus::new(FuncType::Event);
    assert_eq!(s.func_type, FuncType::Event);
    assert!(!s.has_ctx_or_ws);
}
