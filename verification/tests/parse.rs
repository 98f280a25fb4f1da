use varnish::model::{FuncType, OutputTy, ParamKind, ParamTy, ParamType, SharedTypes, VmodInfo, VmodParams};
use varnish::parser::{FnItem, ImplBlock, ImplMember, Item, ItemKind, ModItem, Signature};
use varnish::parser_args::{FnArg, FuncStatus, PatType, Receiver};
use varnish::types::{Attr, AttrMeta, GenericArg, LitValue, NestedMeta, PathArgs, PathSegment, Ty, TyKind};

pub fn path_ty(name: &str) -> Ty {
    Ty {
        kind: TyKind::Path {
            qself: false,
            leading_colon: false,
            segments: vec![PathSegment { ident: name.to_string(), args: PathArgs::Plain }],
        },
        text: name.to_string(),
        span: 0,
    }
}

pub fn ref_ty(mutable: bool, elem: Ty) -> Ty {
    let text = format!("&{}{}", if mutable { "mut " } else { "" }, elem.text);
    Ty { kind: TyKind::Reference { mutable, elem: Box::new(elem) }, text, span: 0 }
}

pub fn arg(name: &str, ty: Ty, span: usize) -> FnArg {
    FnArg::Typed(PatType { pat_ident: Some(name.to_string()), ty, attrs: vec![], span })
}

pub fn marker(name: &str, orig: usize) -> Attr {
    Attr { ident: Some(name.to_string()), meta: AttrMeta::Path { last_plain: true }, orig, span: 7 }
}

pub fn fn_item(name: &str, inputs: Vec<FnArg>, output: Option<Ty>, attrs: Vec<Attr>, public: bool) -> FnItem {
    FnItem {
        sig: Signature { ident: name.to_string(), is_async: false, is_unsafe: false, output, inputs, span: 10 },
        vis_public: public,
        attrs,
    }
}

pub fn module(items: Vec<Item>) -> ModItem {
    ModItem { ident: "example".to_string(), attrs: vec![], content: Some(items), span: 1 }
}

fn parse(m: &mut ModItem) -> Result<VmodInfo, Vec<(usize, String)>> {
    VmodInfo::parse(VmodParams { docs: None }, m)
        .map_err(|e| e.into_diags().into_iter().map(|d| (d.span, d.msg)).collect())
}

fn is_even() -> Item {
    Item {
        kind: ItemKind::Fn(fn_item("is_even", vec![arg("n", path_ty("i64"), 11)], Some(path_ty("bool")), vec![], true)),
        span: 10,
    }
}

#[test]
fn parses_a_function() {
    let mut m = module(vec![is_even()]);
    let info = parse(&mut m).unwrap();
    assert_eq!(info.ident, "example");
    assert_eq!(info.funcs.len(), 1);
    let f = &info.funcs[0];
    assert_eq!(f.func_type, FuncType::Function);
    assert_eq!(f.ident, "is_even");
    assert!(!f.has_optional_args);
    assert!(matches!(f.output_ty, OutputTy::ParamType(ParamTy::Bool)));
    assert_eq!(f.args.len(), 1);
    assert_eq!(f.args[0].ident, "n");
    match &f.args[0].ty {
        ParamType::Value(p) => {
            assert_eq!(p.kind, ParamKind::Regular);
            assert_eq!(p.ty_info, ParamTy::I64);
            assert!(p.default.is_none());
        }
        _ => panic!("expected a value argument"),
    }
}

#[test]
fn rejects_other_items() {
    let mut m = module(vec![is_even(), Item { kind: ItemKind::Enum, span: 5 }, Item { kind: ItemKind::Const, span: 6 }]);
    let errs = parse(&mut m).unwrap_err();
    assert_eq!(errs.len(), 2);
    assert_eq!(errs[0].0, 5);
    assert!(errs[0].1.starts_with("Enums are not allowed inside a `mod`"));
    assert_eq!(errs[1], (6, "Constants are not allowed in a `mod` tagged with `#[varnish::vmod]".to_string()));
}

#[test]
fn rejects_an_empty_module() {
    let mut m = module(vec![Item { kind: ItemKind::Use, span: 5 }]);
    let errs = parse(&mut m).unwrap_err();
    assert_eq!(errs, vec![(0, "No functions or objects found in this module".to_string())]);
}

#[test]
fn rejects_private_functions() {
    let mut m = module(vec![Item { kind: ItemKind::Fn(fn_item("hidden", vec![], None, vec![], false)), span: 10 }]);
    let errs = parse(&mut m).unwrap_err();
    assert_eq!(
        errs[0],
        (10, "Only public functions and impl blocks are allowed inside a `mod` tagged with `#[varnish::vmod]`. Add `pub` or move this function outside of this mod.".to_string())
    );
}

fn event_fn(name: &str) -> Item {
    Item {
        kind: ItemKind::Fn(fn_item(
            name,
            vec![arg("ctx", ref_ty(false, path_ty("Ctx")), 12), arg("ev", path_ty("Event"), 13)],
            None,
            vec![marker("event", 0), marker("inline", 1)],
            true,
        )),
        span: 10,
    }
}

#[test]
fn one_event_handler_at_most() {
    let mut ok = module(vec![event_fn("on_event")]);
    let info = parse(&mut ok).unwrap();
    assert_eq!(info.funcs[0].func_type, FuncType::Event);
    assert!(matches!(info.funcs[0].args[0].ty, ParamType::Context { is_mut: false }));
    assert!(matches!(info.funcs[0].args[1].ty, ParamType::Event));
    // the `#[event]` marker is taken out of the user's code, the other attributes stay
    match &ok.content.as_ref().unwrap()[0].kind {
        ItemKind::Fn(f) => {
            assert!(f.attrs.iter().all(|a| a.ident.as_deref() != Some("event")));
            assert!(f.attrs.iter().any(|a| a.ident.as_deref() == Some("inline")));
        }
        _ => panic!("expected a function"),
    }
    let mut two = module(vec![event_fn("a"), event_fn("b")]);
    let errs = parse(&mut two).unwrap_err();
    assert_eq!(errs, vec![(1, "More than one event handler found. Only one event handler is allowed".to_string())]);
}

fn object(members: Vec<ImplMember>) -> Item {
    Item {
        kind: ItemKind::Impl(ImplBlock {
            has_trait: false,
            generics: None,
            self_ty: Ty { span: 20, ..path_ty("kv") },
            items: members,
            attrs: vec![],
            span: 21,
        }),
        span: 21,
    }
}

fn self_arg() -> FnArg {
    FnArg::Receiver(Receiver { reference: true, mutable: false, attrs: vec![], span: 22 })
}

#[test]
fn objects_need_a_constructor() {
    let get = ImplMember::Fn(fn_item("get", vec![self_arg()], Some(path_ty("i64")), vec![], true));
    let mut m = module(vec![object(vec![get])]);
    let errs = parse(&mut m).unwrap_err();
    assert_eq!(errs, vec![(20, "Object must have a constructor called `new`".to_string())]);
}

#[test]
fn parses_an_object() {
    let new = ImplMember::Fn(fn_item("new", vec![], Some(path_ty("Self")), vec![], true));
    let get = ImplMember::Fn(fn_item("get", vec![self_arg()], Some(path_ty("i64")), vec![], true));
    let mut m = module(vec![object(vec![new, get, ImplMember::Other])]);
    let info = parse(&mut m).unwrap();
    assert_eq!(info.objects.len(), 1);
    let o = &info.objects[0];
    assert_eq!(o.ident, "kv");
    assert_eq!(o.constructor.func_type, FuncType::Constructor);
    assert_eq!(o.destructor.func_type, FuncType::Destructor);
    assert_eq!(o.destructor.ident, "_fini");
    assert_eq!(o.funcs.len(), 1);
    assert_eq!(o.funcs[0].func_type, FuncType::Method);
    assert!(matches!(o.funcs[0].args[0].ty, ParamType::SelfType));
}

fn option_ty(inner: Ty) -> Ty {
    let text = format!("Option < {} >", inner.text);
    Ty {
        kind: TyKind::Path {
            qself: false,
            leading_colon: false,
            segments: vec![PathSegment {
                ident: "Option".to_string(),
                args: PathArgs::AngleBracketed(vec![GenericArg::Type(inner)]),
            }],
        },
        text,
        span: 0,
    }
}

fn method(name: &str, mut inputs: Vec<FnArg>, output: Option<Ty>) -> ImplMember {
    inputs.insert(0, self_arg());
    ImplMember::Fn(fn_item(name, inputs, output, vec![], true))
}

fn kv_object(name: &str, members: Vec<ImplMember>, span: usize) -> Item {
    Item {
        kind: ItemKind::Impl(ImplBlock {
            has_trait: false,
            generics: None,
            self_ty: Ty { span, ..path_ty(name) },
            items: members,
            attrs: vec![],
            span,
        }),
        span,
    }
}

// The module `obj`: two structs, each with the `impl` block that exports it.
#[test]
fn object_module() {
    let str_ty = || ref_ty(false, path_ty("str"));
    let kv1 = kv_object(
        "kv1",
        vec![
            ImplMember::Fn(fn_item("new", vec![arg("cap", option_ty(path_ty("i64")), 30)], Some(path_ty("Self")), vec![], true)),
            method("set", vec![arg("key", str_ty(), 31), arg("value", str_ty(), 32)], None),
            method("get", vec![arg("key", str_ty(), 33)], Some(path_ty("String"))),
        ],
        21,
    );
    let name_arg = PatType { pat_ident: Some("name".to_string()), ty: str_ty(), attrs: vec![marker("vcl_name", 0)], span: 41 };
    let kv2 = kv_object(
        "kv2",
        vec![
            ImplMember::Fn(fn_item(
                "new",
                vec![arg("cap", option_ty(path_ty("i64")), 40), FnArg::Typed(name_arg)],
                Some(path_ty("Self")),
                vec![],
                true,
            )),
            method("set", vec![arg("key", str_ty(), 42), arg("value", option_ty(str_ty()), 43)], None),
        ],
        22,
    );
    let mut m = ModItem {
        ident: "obj".to_string(),
        attrs: vec![],
        content: Some(vec![
            Item { kind: ItemKind::Struct, span: 2 },
            kv1,
            Item { kind: ItemKind::Struct, span: 3 },
            kv2,
        ]),
        span: 1,
    };
    let info = parse(&mut m).unwrap();
    assert_eq!(info.ident, "obj");
    assert!(info.funcs.is_empty());
    let names: Vec<&str> = info.objects.iter().map(|o| o.ident.as_str()).collect();
    assert_eq!(names, vec!["kv1", "kv2"]);
    let kv1_funcs: Vec<&str> = info.objects[0].funcs.iter().map(|f| f.ident.as_str()).collect();
    assert_eq!(kv1_funcs, vec!["set", "get"]);
    assert!(info.objects[1].constructor.args.iter().any(|a| matches!(a.ty, ParamType::VclName(_))));
    // the `#[vcl_name]` marker is taken out of the source
    match &m.content.as_ref().unwrap()[3].kind {
        ItemKind::Impl(imp) => match &imp.items[0] {
            ImplMember::Fn(f) => match &f.sig.inputs[1] {
                FnArg::Typed(p) => assert!(p.attrs.is_empty()),
                _ => panic!("expected a typed argument"),
            },
            _ => panic!("expected a function"),
        },
        _ => panic!("expected an impl block"),
    }
}

// From the module `vcl_returns`: a raw VCL type returned by a function that is not `unsafe`.
#[test]
fn vcl_type_return_without_unsafe() {
    let f = fn_item("val_int", vec![], Some(path_ty("VCL_INT")), vec![], true);
    let mut m = module(vec![Item { kind: ItemKind::Fn(f), span: 10 }]);
    let info = parse(&mut m).unwrap();
    let fi = &info.funcs[0];
    assert_eq!(fi.func_type, FuncType::Function);
    assert_eq!(fi.ident, "val_int");
    assert!(fi.args.is_empty());
    assert!(matches!(&fi.output_ty, OutputTy::VclType(s) if s == "VCL_INT"));
    assert!(!fi.out_result);
}

fn with_default(lit: LitValue) -> ModItem {
    let default = Attr {
        ident: Some("default".to_string()),
        meta: AttrMeta::List { items: Ok(vec![NestedMeta::Lit(lit)]) },
        orig: 0,
        span: 8,
    };
    let n = PatType { pat_ident: Some("n".to_string()), ty: path_ty("i64"), attrs: vec![default], span: 11 };
    let f = fn_item("f", vec![FnArg::Typed(n)], None, vec![], true);
    module(vec![Item { kind: ItemKind::Fn(f), span: 10 }])
}

#[test]
fn integer_defaults() {
    let mut m = with_default(LitValue::Int { text: "5".to_string() });
    let info = parse(&mut m).unwrap();
    match &info.funcs[0].args[0].ty {
        ParamType::Value(p) => assert_eq!(p.default, Some("5".to_string())),
        _ => panic!("expected a value argument"),
    }
    let mut bad = with_default(LitValue::Int { text: "10i64".to_string() });
    assert_eq!(parse(&mut bad).unwrap_err(), vec![(11, "Default value must be a number JSON can read".to_string())]);
    let mut wrong_type = with_default(LitValue::Float { text: "1.5".to_string() });
    assert_eq!(
        parse(&mut wrong_type).unwrap_err(),
        vec![(11, "Only `f64` arguments can have a default float value".to_string())]
    );
}

fn diags<T>(r: Result<T, varnish::errors::Errors>) -> Vec<(usize, String)> {
    match r {
        Ok(_) => panic!("expected an error"),
        Err(e) => e.into_diags().into_iter().map(|d| (d.span, d.msg)).collect(),
    }
}

#[test]
fn context_or_workspace_once() {
    let mut shared = SharedTypes::new();
    let mut status = FuncStatus::new(FuncType::Function);
    let mut w = PatType { pat_ident: Some("w".to_string()), ty: ref_ty(true, path_ty("Workspace")), attrs: vec![], span: 50 };
    let first = ParamType::parse(&mut shared, &mut w, &mut status);
    assert!(matches!(first, Ok(ParamType::Workspace { is_mut: true })));
    let mut c = PatType { pat_ident: Some("c".to_string()), ty: ref_ty(false, path_ty("Ctx")), attrs: vec![], span: 51 };
    assert_eq!(
        diags(ParamType::parse(&mut shared, &mut c, &mut status)),
        vec![(51, "Context or Workspace param is allowed only once in a function args list".to_string())]
    );
}

#[test]
fn shared_per_vcl_type_is_the_same_everywhere() {
    let mut shared = SharedTypes::new();
    shared.shared_per_vcl_ty = Some("Foo".to_string());
    let shared_arg = |inner: &str, span: usize| PatType {
        pat_ident: Some("v".to_string()),
        ty: option_ty(ref_ty(false, Ty { span, ..path_ty(inner) })),
        attrs: vec![marker("shared_per_vcl", 0)],
        span,
    };
    let mut status = FuncStatus::new(FuncType::Function);
    let mut bar = shared_arg("Bar", 60);
    bar.ty.span = 61;
    assert_eq!(
        diags(ParamType::parse(&mut shared, &mut bar, &mut status)),
        vec![(61, "Shared type must be the same everywhere. Another shared param used type `Foo`.".to_string())]
    );
    let mut status = FuncStatus::new(FuncType::Function);
    let mut foo = shared_arg("Foo", 62);
    assert!(matches!(ParamType::parse(&mut shared, &mut foo, &mut status), Ok(ParamType::SharedPerVclRef)));
    assert_eq!(shared.shared_per_vcl_ty, Some("Foo".to_string()));
    assert!(foo.attrs.is_empty());
}

#[test]
fn string_defaults_are_json_quoted() {
    let default = Attr {
        ident: Some("default".to_string()),
        meta: AttrMeta::List { items: Ok(vec![NestedMeta::Lit(LitValue::Str("a\"b\\c\n\u{1}".to_string()))]) },
        orig: 0,
        span: 8,
    };
    let s = PatType { pat_ident: Some("s".to_string()), ty: ref_ty(false, path_ty("str")), attrs: vec![default], span: 11 };
    let f = fn_item("f", vec![FnArg::Typed(s)], None, vec![], true);
    let mut m = module(vec![Item { kind: ItemKind::Fn(f), span: 10 }]);
    let info = parse(&mut m).unwrap();
    match &info.funcs[0].args[0].ty {
        ParamType::Value(p) => assert_eq!(p.default, Some("\"a\\\"b\\\\c\\n\\u0001\"".to_string())),
        _ => panic!("expected a value argument"),
    }
}
