use varnish::json::Json;
use varnish::stats::{generate_metadata_json, generate_metrics, has_repr_c, validate_fields, Format, Level, MetricArg, MetricType, StatField};
use varnish::types::{Attr, AttrMeta, NestedMeta, PathArgs, PathSegment, Ty, TyKind};

fn path(segs: &[&str]) -> Ty {
    Ty {
        kind: TyKind::Path {
            qself: false,
            leading_colon: false,
            segments: segs.iter().map(|s| PathSegment { ident: s.to_string(), args: PathArgs::Plain }).collect(),
        },
        text: segs.join("::"),
        span: 0,
    }
}

fn attr(name: &str) -> Attr {
    Attr { ident: Some(name.to_string()), meta: AttrMeta::Path { last_plain: true }, orig: 0, span: 0 }
}

fn doc(text: &str) -> Attr {
    Attr { ident: Some("doc".to_string()), meta: AttrMeta::NameValue { str_value: Some(text.to_string()) }, orig: 0, span: 0 }
}

fn field(name: &str, attrs: Vec<Attr>, counter_args: Vec<MetricArg>) -> StatField {
    StatField { ident: name.to_string(), ty: path(&["std", "sync", "atomic", "AtomicU64"]), attrs, counter_args, gauge_args: vec![] }
}

fn json_text(j: &Json) -> String {
    match j {
        Json::Null => "null".to_string(),
        Json::Bool(b) => b.to_string(),
        Json::Num(n) => n.to_string(),
        Json::Str(s) => format!("{s:?}"),
        Json::Arr(v) => format!("[{}]", v.iter().map(json_text).collect::<Vec<_>>().join(",")),
        Json::Obj(v) => format!("{{{}}}", v.iter().map(|(k, x)| format!("{k:?}:{}", json_text(x))).collect::<Vec<_>>().join(",")),
    }
}

#[test]
fn field_types_must_be_atomic() {
    assert!(validate_fields(&vec![field("a", vec![], vec![])]).is_ok());
    let mut bad = field("b", vec![], vec![]);
    bad.ty = path(&["u64"]);
    assert_eq!(validate_fields(&vec![field("a", vec![], vec![]), bad]).err(), Some("Field b must be of type AtomicU64".to_string()));
    let mut other = field("c", vec![], vec![]);
    other.ty = Ty { kind: TyKind::Other, text: "[u8; 4]".to_string(), span: 0 };
    assert_eq!(validate_fields(&vec![other]).err(), Some("Field types must be AtomicU64".to_string()));
}

#[test]
fn metrics_of_fields() {
    let fields = vec![
        field("hits", vec![attr("counter"), doc(" Number of hits"), doc(""), doc(" Counted per request"), doc(" ignored")], vec![MetricArg::Level("debug".to_string()), MetricArg::Format("bytes".to_string())]),
        StatField { gauge_args: vec![MetricArg::Other], ..field("open", vec![attr("gauge")], vec![]) },
    ];
    let m = generate_metrics(&fields).ok().unwrap();
    assert_eq!(m.len(), 2);
    assert_eq!(m[0].name, "hits");
    assert_eq!(m[0].metric_type, MetricType::Counter);
    assert_eq!(m[0].level, Level::Debug);
    assert_eq!(m[0].format, Format::Bytes);
    assert_eq!(m[0].oneliner, "Number of hits");
    assert_eq!(m[0].docs, "Counted per request");
    assert_eq!(m[0].index, Some(0));
    assert_eq!(m[1].metric_type, MetricType::Gauge);
    assert_eq!(m[1].level, Level::Info);
    assert_eq!(m[1].format, Format::Integer);
    assert_eq!(m[1].oneliner, "");
    assert_eq!(m[1].index, Some(8));
}

#[test]
fn metric_errors() {
    let none = vec![field("x", vec![], vec![])];
    assert_eq!(generate_metrics(&none).err(), Some("Field x must have either #[counter] or #[gauge] attribute".to_string()));
    let bad_level = vec![field("y", vec![attr("counter")], vec![MetricArg::Level("loud".to_string())])];
    assert_eq!(generate_metrics(&bad_level).err(), Some("Invalid level value for field y. Must be one of: info, diag, debug".to_string()));
    let bad_format = vec![field("z", vec![attr("counter")], vec![MetricArg::Format("hex".to_string())])];
    assert_eq!(
        generate_metrics(&bad_format).err(),
        Some("Invalid format value for field z. Must be one of: integer, bitmap, duration, bytes".to_string())
    );
}

#[test]
fn metadata() {
    let fields = vec![field("hits", vec![attr("counter"), doc("Hits")], vec![])];
    let j = generate_metadata_json("Stats", &fields).ok().unwrap();
    assert_eq!(
        json_text(&j),
        r#"{"version":"1","name":"Stats","oneliner":"Stats statistics","order":100,"docs":"","elements":1,"elem":{"hits":{"name":"hits","type":"counter","ctype":"uint64_t","level":"info","oneliner":"Hits","format":"integer","docs":"","index":0}}}"#
    );
}

#[test]
fn repr_c() {
    let repr = |items: Vec<NestedMeta>| Attr { ident: Some("repr".to_string()), meta: AttrMeta::List { items: Ok(items) }, orig: 0, span: 0 };
    assert!(has_repr_c(&vec![attr("derive"), repr(vec![NestedMeta::Meta { path: Some("C".to_string()) }])]));
    assert!(!has_repr_c(&vec![repr(vec![NestedMeta::Meta { path: Some("packed".to_string()) }])]));
    assert!(!has_repr_c(&vec![repr(vec![NestedMeta::Meta { path: Some("C".to_string()) }, NestedMeta::Meta { path: Some("packed".to_string()) }])]));
    assert!(!has_repr_c(&vec![]));
}
