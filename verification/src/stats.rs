//! Counters of a VMOD exported to the Varnish statistics: the fields of a `#[repr(C)]` struct
//! of `AtomicU64`, each a `#[counter]` or a `#[gauge]`, and the metadata Varnish reads.
use vstd::prelude::*;
use crate::docs::{parse_doc_str, spec_doc_str, split_lines};
use crate::json::{Json, JsonV, json_view, jsons_view, arr, str_json, obj, pairs_view};
use crate::text::{cat, chars_of, string_of, str_eq, decimal, spec_decimal};
use crate::types::{Attr, AttrMeta, NestedMeta, Ty, TyKind, attr_is, spec_find_attr};

verus! {

broadcast use vstd::string::group_string_axioms;

/// How a statistic changes.
#[derive(Debug, Clone, Copy, PartialEq, Eq, Structural)]
pub enum MetricType {
    Counter,
    Gauge,
}

/// Which level of detail shows a statistic.
#[derive(Debug, Clone, Copy, PartialEq, Eq, Structural)]
pub enum Level {
    Info,
    Diag,
    Debug,
}

impl Default for Level {
    fn default() -> (r: Self)
        ensures
            r == Level::Info,
    {
        Level::Info
    }
}

/// How a statistic's value reads.
#[derive(Debug, Clone, Copy, PartialEq, Eq, Structural)]
pub enum Format {
    Integer,
    Bitmap,
    Duration,
    Bytes,
}

impl Default for Format {
    fn default() -> (r: Self)
        ensures
            r == Format::Integer,
    {
        Format::Integer
    }
}

/// A field of the struct of statistics.
#[derive(Debug)]
pub struct StatField {
    pub ident: String,
    pub ty: Ty,
    pub attrs: Vec<Attr>,
    /// What the first `#[counter(...)]` attribute sets, item after item, up to the first item
    /// that does not read
    pub counter_args: Vec<MetricArg>,
    /// What the first `#[gauge(...)]` attribute sets
    pub gauge_args: Vec<MetricArg>,
}

/// An item of a `#[counter(...)]` or `#[gauge(...)]` attribute.
#[derive(Debug)]
pub enum MetricArg {
    /// `level = "..."`
    Level(String),
    /// `format = "..."`
    Format(String),
    /// Any other item
    Other,
}

/// A statistic as the metadata describes it.
#[derive(Debug)]
pub struct VscMetricDef {
    pub name: String,
    pub metric_type: MetricType,
    pub level: Level,
    /// First line of the docs
    pub oneliner: String,
    pub format: Format,
    /// Second line of the docs
    pub docs: String,
    /// Byte offset of the value in the struct
    pub index: Option<usize>,
}

// ---------------------------------------------------------------------------------------------
// Checking the fields

/// The type is a path whose last segment is `AtomicU64`.
pub open spec fn is_atomic_u64(t: Ty) -> bool {
    match t.kind {
        TyKind::Path { segments, .. } => segments@.len() > 0 && segments@.last().ident@ == "AtomicU64"@,
        _ => false,
    }
}

/// What is wrong with a field's type, if anything.
pub open spec fn spec_field_type_error(f: StatField) -> Option<Seq<char>> {
    match f.ty.kind {
        TyKind::Path { .. } => if is_atomic_u64(f.ty) {
            None
        } else {
            Some("Field "@ + f.ident@ + " must be of type AtomicU64"@)
        },
        _ => Some("Field types must be AtomicU64"@),
    }
}

/// The first error among the fields' types.
pub open spec fn spec_validate_fields(fs: Seq<StatField>) -> Result<(), Seq<char>>
    decreases fs.len(),
{
    if fs.len() == 0 {
        Ok(())
    } else {
        match spec_validate_fields(fs.drop_last()) {
            Err(e) => Err(e),
            Ok(_) => match spec_field_type_error(fs.last()) {
                Some(e) => Err(e),
                None => Ok(()),
            },
        }
    }
}

/// Every field must be an `AtomicU64`: the first field that is not gives the error.
pub fn validate_fields(fields: &Vec<StatField>) -> (r: Result<(), String>)
    ensures
        match (r, spec_validate_fields(fields@)) {
            (Ok(_), Ok(_)) => true,
            (Err(a), Err(b)) => a@ == b,
            _ => false,
        },
{
    let mut i: usize = 0;
    while i < fields.len()
        invariant
            i <= fields@.len(),
            spec_validate_fields(fields@.take(i as int)) is Ok,
        decreases fields.len() - i,
    {
        assert(fields@.take(i + 1).drop_last() =~= fields@.take(i as int));
        let f = &fields[i];
        let err = match &f.ty.kind {
            TyKind::Path { segments, .. } => {
                let ok = segments.len() > 0 && str_eq(segments[segments.len() - 1].ident.as_str(), "AtomicU64");
                if ok {
                    None
                } else {
                    Some(cat(cat("Field ", f.ident.as_str()).as_str(), " must be of type AtomicU64"))
                }
            },
            _ => Some("Field types must be AtomicU64".to_string()),
        };
        match err {
            Some(e) => {
                proof {
                    lemma_validate_prefix(fields@, i as int + 1);
                }
                return Err(e);
            },
            None => {},
        }
        i = i + 1;
    }
    assert(fields@.take(fields@.len() as int) =~= fields@);
    Ok(())
}

proof fn lemma_validate_prefix(fs: Seq<StatField>, k: int)
    requires
        0 <= k <= fs.len(),
        spec_validate_fields(fs.take(k)) is Err,
    ensures
        spec_validate_fields(fs) == spec_validate_fields(fs.take(k)),
    decreases fs.len() - k,
{
    if k < fs.len() {
        assert(fs.take(k + 1).drop_last() =~= fs.take(k));
        lemma_validate_prefix(fs, k + 1);
    } else {
        assert(fs.take(k) =~= fs);
    }
}

// ---------------------------------------------------------------------------------------------
// The metrics

/// The lines of `lines` that are not empty.
pub open spec fn nonempty_lines(lines: Seq<Seq<char>>) -> Seq<Seq<char>>
    decreases lines.len(),
{
    if lines.len() == 0 {
        seq![]
    } else if lines.last().len() == 0 {
        nonempty_lines(lines.drop_last())
    } else {
        nonempty_lines(lines.drop_last()).push(lines.last())
    }
}

/// The `i`-th non-empty line of `s`, or nothing.
pub open spec fn nth_line(s: Seq<char>, i: int) -> Seq<char> {
    let ls = nonempty_lines(split_lines(s));
    if i < ls.len() { ls[i] } else { Seq::empty() }
}

/// The non-empty lines of `s`.
fn lines_of(s: &str) -> (r: Vec<Vec<char>>)
    ensures
        r@.map_values(|l: Vec<char>| l@) == nonempty_lines(split_lines(s@)),
{
    let cs = chars_of(s);
    let mut done: Vec<Vec<char>> = Vec::new();
    let mut cur: Vec<char> = Vec::new();
    let mut i: usize = 0;
    assert(cs@.take(0) =~= Seq::<char>::empty());
    while i < cs.len()
        invariant
            i <= cs@.len(),
            cs@ == s@,
            done@.map_values(|l: Vec<char>| l@) == nonempty_lines(split_lines(cs@.take(i as int)).drop_last()),
            cur@ == split_lines(cs@.take(i as int)).last(),
        decreases cs.len() - i,
    {
        let ghost pre = cs@.take(i as int);
        let ghost sl = split_lines(pre);
        proof {
            crate::docs::lemma_split_lines_nonempty(pre);
            assert(cs@.take(i + 1).drop_last() =~= pre);
        }
        let c = cs[i];
        if c == '\n' {
            if cur.len() > 0 {
                let ghost before = done@.map_values(|l: Vec<char>| l@);
                done.push(cur);
                assert(done@.map_values(|l: Vec<char>| l@) =~= before.push(sl.last()));
            }
            cur = Vec::new();
            proof {
                let sl2 = split_lines(cs@.take(i + 1));
                assert(sl2 == sl.push(Seq::empty()));
                assert(sl2.drop_last() =~= sl);
                assert(sl =~= sl.drop_last().push(sl.last()));
                assert(cur@ =~= sl2.last());
            }
        } else {
            cur.push(c);
            proof {
                let sl2 = split_lines(cs@.take(i + 1));
                assert(sl2 == sl.update(sl.len() - 1, sl.last().push(c)));
                assert(sl2.drop_last() =~= sl.drop_last());
            }
        }
        i = i + 1;
    }
    let ghost full = split_lines(cs@.take(i as int));
    proof {
        assert(cs@.take(i as int) =~= s@);
        crate::docs::lemma_split_lines_nonempty(s@);
        assert(full =~= full.drop_last().push(full.last()));
    }
    if cur.len() > 0 {
        let ghost before = done@.map_values(|l: Vec<char>| l@);
        done.push(cur);
        assert(done@.map_values(|l: Vec<char>| l@) =~= before.push(full.last()));
    }
    done
}

/// The level a name gives, if it is one.
pub open spec fn spec_level_of(s: Seq<char>) -> Option<Level> {
    if s == "info"@ { Some(Level::Info) } else if s == "diag"@ { Some(Level::Diag) } else if s == "debug"@ { Some(Level::Debug) } else { None }
}

/// The format a name gives, if it is one.
pub open spec fn spec_format_of(s: Seq<char>) -> Option<Format> {
    if s == "integer"@ { Some(Format::Integer) } else if s == "bitmap"@ { Some(Format::Bitmap) }
    else if s == "duration"@ { Some(Format::Duration) } else if s == "bytes"@ { Some(Format::Bytes) } else { None }
}

pub open spec fn level_error(field: Seq<char>) -> Seq<char> {
    "Invalid level value for field "@ + field + ". Must be one of: info, diag, debug"@
}

pub open spec fn format_error(field: Seq<char>) -> Seq<char> {
    "Invalid format value for field "@ + field + ". Must be one of: integer, bitmap, duration, bytes"@
}

/// The level and format the items of a metric's attribute set, item after item, the last one
/// winning; an unknown level or format is an error.
pub open spec fn spec_metric_attrs(field: Seq<char>, args: Seq<MetricArg>) -> Result<(Level, Format), Seq<char>>
    decreases args.len(),
{
    if args.len() == 0 {
        Ok((Level::Info, Format::Integer))
    } else {
        match spec_metric_attrs(field, args.drop_last()) {
            Err(e) => Err(e),
            Ok((l, f)) => match args.last() {
                MetricArg::Level(s) => match spec_level_of(s@) {
                    Some(l2) => Ok((l2, f)),
                    None => Err(level_error(field)),
                },
                MetricArg::Format(s) => match spec_format_of(s@) {
                    Some(f2) => Ok((l, f2)),
                    None => Err(format_error(field)),
                },
                MetricArg::Other => Ok((l, f)),
            },
        }
    }
}

fn level_of(s: &str) -> (r: Option<Level>)
    ensures
        r == spec_level_of(s@),
{
    if str_eq(s, "info") { Some(Level::Info) } else if str_eq(s, "diag") { Some(Level::Diag) }
    else if str_eq(s, "debug") { Some(Level::Debug) } else { None }
}

fn format_of(s: &str) -> (r: Option<Format>)
    ensures
        r == spec_format_of(s@),
{
    if str_eq(s, "integer") { Some(Format::Integer) } else if str_eq(s, "bitmap") { Some(Format::Bitmap) }
    else if str_eq(s, "duration") { Some(Format::Duration) } else if str_eq(s, "bytes") { Some(Format::Bytes) } else { None }
}

proof fn lemma_metric_attrs_err(field: Seq<char>, args: Seq<MetricArg>, k: int)
    requires
        0 <= k <= args.len(),
        spec_metric_attrs(field, args.take(k)) is Err,
    ensures
        spec_metric_attrs(field, args) == spec_metric_attrs(field, args.take(k)),
    decreases args.len() - k,
{
    if k < args.len() {
        assert(args.take(k + 1).drop_last() =~= args.take(k));
        lemma_metric_attrs_err(field, args, k + 1);
    } else {
        assert(args.take(k) =~= args);
    }
}

/// The level and format that a metric's attribute sets.
fn parse_metric_attributes(field: &str, args: &Vec<MetricArg>) -> (r: Result<(Level, Format), String>)
    ensures
        match (r, spec_metric_attrs(field@, args@)) {
            (Ok(a), Ok(b)) => a == b,
            (Err(a), Err(b)) => a@ == b,
            _ => false,
        },
{
    let mut level = Level::default();
    let mut format = Format::default();
    let mut i: usize = 0;
    while i < args.len()
        invariant
            i <= args@.len(),
            spec_metric_attrs(field@, args@.take(i as int)) == Ok::<(Level, Format), Seq<char>>((level, format)),
        decreases args.len() - i,
    {
        assert(args@.take(i + 1).drop_last() =~= args@.take(i as int));
        match &args[i] {
            MetricArg::Level(s) => match level_of(s.as_str()) {
                Some(l) => level = l,
                None => {
                    let e = cat(cat("Invalid level value for field ", field).as_str(), ". Must be one of: info, diag, debug");
                    proof {
                        lemma_metric_attrs_err(field@, args@, i + 1);
                    }
                    return Err(e);
                },
            },
            MetricArg::Format(s) => match format_of(s.as_str()) {
                Some(f) => format = f,
                None => {
                    let e = cat(cat("Invalid format value for field ", field).as_str(), ". Must be one of: integer, bitmap, duration, bytes");
                    proof {
                        lemma_metric_attrs_err(field@, args@, i + 1);
                    }
                    return Err(e);
                },
            },
            MetricArg::Other => {},
        }
        i = i + 1;
    }
    assert(args@.take(args@.len() as int) =~= args@);
    Ok((level, format))
}

/// The attributes hold one named `name`.
pub open spec fn has_attr_named(attrs: Seq<Attr>, name: Seq<char>) -> bool {
    spec_find_attr(attrs, name) is Some
}

/// The metric of the field at position `i`: a counter or a gauge as its attributes say (counter
/// first), its docs' first two lines, its level and format, and its offset `8 * i`.
pub open spec fn spec_metric(f: StatField, i: nat) -> Result<(Seq<char>, MetricType, Level, Seq<char>, Format, Seq<char>, Option<usize>), Seq<char>> {
    let mt = if has_attr_named(f.attrs@, "counter"@) {
        Some(MetricType::Counter)
    } else if has_attr_named(f.attrs@, "gauge"@) {
        Some(MetricType::Gauge)
    } else {
        None
    };
    match mt {
        None => Err("Field "@ + f.ident@ + " must have either #[counter] or #[gauge] attribute"@),
        Some(t) => {
            let doc = spec_doc_str(f.attrs@);
            let args = if t is Counter { f.counter_args@ } else { f.gauge_args@ };
            match spec_metric_attrs(f.ident@, args) {
                Err(e) => Err(e),
                Ok((l, fmt)) => Ok((f.ident@, t, l, nth_line(doc, 0), fmt, nth_line(doc, 1), Some((8 * i) as usize))),
            }
        },
    }
}

pub open spec fn metric_view(m: VscMetricDef) -> (Seq<char>, MetricType, Level, Seq<char>, Format, Seq<char>, Option<usize>) {
    (m.name@, m.metric_type, m.level, m.oneliner@, m.format, m.docs@, m.index)
}

/// The metrics of the fields, in order, or the first error.
pub open spec fn spec_metrics(fs: Seq<StatField>) -> Result<Seq<(Seq<char>, MetricType, Level, Seq<char>, Format, Seq<char>, Option<usize>)>, Seq<char>>
    decreases fs.len(),
{
    if fs.len() == 0 {
        Ok(seq![])
    } else {
        match spec_metrics(fs.drop_last()) {
            Err(e) => Err(e),
            Ok(ms) => match spec_metric(fs.last(), (fs.len() - 1) as nat) {
                Err(e) => Err(e),
                Ok(m) => Ok(ms.push(m)),
            },
        }
    }
}

fn line_or_empty(lines: &Vec<Vec<char>>, i: usize) -> (r: String)
    ensures
        r@ == (if i < lines@.len() { lines@[i as int]@ } else { Seq::empty() }),
{
    if i < lines.len() {
        string_of(&lines[i])
    } else {
        String::new()
    }
}

fn metric_of(f: &StatField, i: usize) -> (r: Result<VscMetricDef, String>)
    requires
        8 * i <= usize::MAX,
    ensures
        match (r, spec_metric(*f, i as nat)) {
            (Ok(a), Ok(b)) => metric_view(a) == b,
            (Err(a), Err(b)) => a@ == b,
            _ => false,
        },
{
    let counter = crate::types::find_attr_index(&f.attrs, "counter").is_some();
    let gauge = crate::types::find_attr_index(&f.attrs, "gauge").is_some();
    let metric_type = if counter {
        MetricType::Counter
    } else if gauge {
        MetricType::Gauge
    } else {
        return Err(cat(cat("Field ", f.ident.as_str()).as_str(), " must have either #[counter] or #[gauge] attribute"));
    };
    let doc_str = parse_doc_str(&f.attrs);
    let lines = lines_of(doc_str.as_str());
    let oneliner = line_or_empty(&lines, 0);
    let docs = line_or_empty(&lines, 1);
    let args = match metric_type {
        MetricType::Counter => &f.counter_args,
        MetricType::Gauge => &f.gauge_args,
    };
    let (level, format) = parse_metric_attributes(f.ident.as_str(), args)?;
    proof {
        let ls = nonempty_lines(split_lines(doc_str@));
        assert(lines@.len() == ls.len());
        if 0 < lines@.len() {
            assert(lines@[0]@ == ls[0]);
        }
        if 1 < lines@.len() {
            assert(lines@[1]@ == ls[1]);
        }
    }
    Ok(VscMetricDef {
        name: f.ident.clone(),
        metric_type,
        level,
        oneliner,
        format,
        docs,
        index: Some(i * 8),
    })
}

proof fn lemma_metrics_err(fs: Seq<StatField>, k: int)
    requires
        0 <= k <= fs.len(),
        spec_metrics(fs.take(k)) is Err,
    ensures
        spec_metrics(fs) == spec_metrics(fs.take(k)),
    decreases fs.len() - k,
{
    if k < fs.len() {
        assert(fs.take(k + 1).drop_last() =~= fs.take(k));
        lemma_metrics_err(fs, k + 1);
    } else {
        assert(fs.take(k) =~= fs);
    }
}

/// The metrics of the fields, in order.
pub fn generate_metrics(fields: &Vec<StatField>) -> (r: Result<Vec<VscMetricDef>, String>)
    requires
        8 * fields@.len() <= usize::MAX,
    ensures
        match (r, spec_metrics(fields@)) {
            (Ok(a), Ok(b)) => a@.map_values(|m: VscMetricDef| metric_view(m)) == b,
            (Err(a), Err(b)) => a@ == b,
            _ => false,
        },
{
    let mut out: Vec<VscMetricDef> = Vec::new();
    let mut i: usize = 0;
    assert(fields@.take(0) =~= Seq::<StatField>::empty());
    assert(out@.map_values(|m: VscMetricDef| metric_view(m)) =~= seq![]);
    while i < fields.len()
        invariant
            i <= fields@.len(),
            8 * fields@.len() <= usize::MAX,
            spec_metrics(fields@.take(i as int)) == Ok::<_, Seq<char>>(out@.map_values(|m: VscMetricDef| metric_view(m))),
        decreases fields.len() - i,
    {
        assert(fields@.take(i + 1).drop_last() =~= fields@.take(i as int));
        match metric_of(&fields[i], i) {
            Ok(m) => {
                let ghost before = out@.map_values(|m: VscMetricDef| metric_view(m));
                out.push(m);
                assert(out@.map_values(|m: VscMetricDef| metric_view(m)) =~= before.push(metric_view(m)));
            },
            Err(e) => {
                proof {
                    lemma_metrics_err(fields@, i + 1);
                }
                return Err(e);
            },
        }
        i = i + 1;
    }
    assert(fields@.take(fields@.len() as int) =~= fields@);
    Ok(out)
}


// ---------------------------------------------------------------------------------------------
// The metadata

pub open spec fn spec_type_name(t: MetricType) -> Seq<char> {
    match t {
        MetricType::Counter => "counter"@,
        MetricType::Gauge => "gauge"@,
    }
}

pub open spec fn spec_level_name(l: Level) -> Seq<char> {
    match l {
        Level::Info => "info"@,
        Level::Diag => "diag"@,
        Level::Debug => "debug"@,
    }
}

pub open spec fn spec_format_name(f: Format) -> Seq<char> {
    match f {
        Format::Integer => "integer"@,
        Format::Bitmap => "bitmap"@,
        Format::Duration => "duration"@,
        Format::Bytes => "bytes"@,
    }
}

/// The JSON of a metric.
pub open spec fn spec_metric_json(m: (Seq<char>, MetricType, Level, Seq<char>, Format, Seq<char>, Option<usize>)) -> JsonV {
    JsonV::Obj(seq![
        ("name"@, JsonV::Str(m.0)),
        ("type"@, JsonV::Str(spec_type_name(m.1))),
        ("ctype"@, JsonV::Str("uint64_t"@)),
        ("level"@, JsonV::Str(spec_level_name(m.2))),
        ("oneliner"@, JsonV::Str(m.3)),
        ("format"@, JsonV::Str(spec_format_name(m.4))),
        ("docs"@, JsonV::Str(m.5)),
        ("index"@, match m.6 {
            Some(i) => JsonV::Num(i as u64),
            None => JsonV::Null,
        }),
    ])
}

/// The entries of the metrics, keyed by their names.
pub open spec fn spec_metric_entries(ms: Seq<(Seq<char>, MetricType, Level, Seq<char>, Format, Seq<char>, Option<usize>)>) -> Seq<(Seq<char>, JsonV)> {
    ms.map_values(|m: (Seq<char>, MetricType, Level, Seq<char>, Format, Seq<char>, Option<usize>)| (m.0, spec_metric_json(m)))
}

/// The metadata of the statistics of the struct `name`.
pub open spec fn spec_metadata(name: Seq<char>, ms: Seq<(Seq<char>, MetricType, Level, Seq<char>, Format, Seq<char>, Option<usize>)>) -> JsonV {
    JsonV::Obj(seq![
        ("version"@, JsonV::Str("1"@)),
        ("name"@, JsonV::Str(name)),
        ("oneliner"@, JsonV::Str(name + " statistics"@)),
        ("order"@, JsonV::Num(100)),
        ("docs"@, JsonV::Str(Seq::empty())),
        ("elements"@, JsonV::Num(ms.len() as u64)),
        ("elem"@, JsonV::Obj(spec_metric_entries(ms))),
    ])
}

fn metric_json(m: &VscMetricDef) -> (j: Json)
    ensures
        json_view(j) == spec_metric_json(metric_view(*m)),
{
    let t = match m.metric_type {
        MetricType::Counter => "counter",
        MetricType::Gauge => "gauge",
    };
    let l = match m.level {
        Level::Info => "info",
        Level::Diag => "diag",
        Level::Debug => "debug",
    };
    let f = match m.format {
        Format::Integer => "integer",
        Format::Bitmap => "bitmap",
        Format::Duration => "duration",
        Format::Bytes => "bytes",
    };
    let index = match m.index {
        Some(i) => Json::Num(i as u64),
        None => Json::Null,
    };
    let mut items: Vec<(String, Json)> = Vec::new();
    items.push(("name".to_string(), str_json(m.name.as_str())));
    items.push(("type".to_string(), str_json(t)));
    items.push(("ctype".to_string(), str_json("uint64_t")));
    items.push(("level".to_string(), str_json(l)));
    items.push(("oneliner".to_string(), str_json(m.oneliner.as_str())));
    items.push(("format".to_string(), str_json(f)));
    items.push(("docs".to_string(), str_json(m.docs.as_str())));
    items.push(("index".to_string(), index));
    let ghost iv = pairs_view(items@);
    let j = obj(items);
    proof {
        assert(iv =~= spec_metric_json(metric_view(*m))->Obj_0);
    }
    j
}

/// The metadata Varnish reads for the statistics of the struct `name`.
pub fn generate_metadata_json(name: &str, fields: &Vec<StatField>) -> (r: Result<Json, String>)
    requires
        8 * fields@.len() <= usize::MAX,
    ensures
        match (r, spec_metrics(fields@)) {
            (Ok(j), Ok(ms)) => json_view(j) == spec_metadata(name@, ms),
            (Err(a), Err(b)) => a@ == b,
            _ => false,
        },
{
    let metrics = generate_metrics(fields)?;
    let ghost ms = metrics@.map_values(|m: VscMetricDef| metric_view(m));
    let mut elem: Vec<(String, Json)> = Vec::new();
    let mut i: usize = 0;
    while i < metrics.len()
        invariant
            i <= metrics@.len(),
            ms == metrics@.map_values(|m: VscMetricDef| metric_view(m)),
            pairs_view(elem@) == spec_metric_entries(ms.take(i as int)),
        decreases metrics.len() - i,
    {
        let ghost before = pairs_view(elem@);
        let m = &metrics[i];
        elem.push((m.name.clone(), metric_json(m)));
        assert(pairs_view(elem@) =~= before.push((m.name@, spec_metric_json(metric_view(*m)))));
        assert(ms.take(i + 1) =~= ms.take(i as int).push(metric_view(*m)));
        assert(spec_metric_entries(ms.take(i + 1)) =~= spec_metric_entries(ms.take(i as int)).push((m.name@, spec_metric_json(metric_view(*m)))));
        i = i + 1;
    }
    assert(ms.take(ms.len() as int) =~= ms);
    let mut items: Vec<(String, Json)> = Vec::new();
    items.push(("version".to_string(), str_json("1")));
    items.push(("name".to_string(), str_json(name)));
    items.push(("oneliner".to_string(), str_json(cat(name, " statistics").as_str())));
    items.push(("order".to_string(), Json::Num(100)));
    items.push(("docs".to_string(), Json::Str(String::new())));
    items.push(("elements".to_string(), Json::Num(metrics.len() as u64)));
    items.push(("elem".to_string(), obj(elem)));
    let ghost iv = pairs_view(items@);
    let j = obj(items);
    proof {
        assert(iv =~= spec_metadata(name@, ms)->Obj_0);
    }
    Ok(j)
}

/// The nested item is the path `C`.
pub open spec fn is_path_c(n: NestedMeta) -> bool {
    match n {
        NestedMeta::Meta { path } => match path {
            Some(p) => p@ == "C"@,
            None => false,
        },
        _ => false,
    }
}

/// The item of a `#[repr(...)]` attribute is the single path `C`.
pub open spec fn is_repr_c_meta(m: AttrMeta) -> bool {
    match m {
        AttrMeta::List { items } => match items {
            Ok(v) => v@.len() == 1 && is_path_c(v@[0]),
            Err(_) => false,
        },
        _ => false,
    }
}

/// Some attribute of `attrs` is `#[repr(C)]`.
pub open spec fn spec_has_repr_c(attrs: Seq<Attr>) -> bool
    decreases attrs.len(),
{
    attrs.len() > 0 && (spec_has_repr_c(attrs.drop_last())
        || (attr_is(attrs.last(), "repr"@) && is_repr_c_meta(attrs.last().meta)))
}

/// Whether the struct is marked `#[repr(C)]`, as its statistics must be.
pub fn has_repr_c(attrs: &Vec<Attr>) -> (r: bool)
    ensures
        r == spec_has_repr_c(attrs@),
{
    let mut found = false;
    let mut i: usize = 0;
    while i < attrs.len()
        invariant
            i <= attrs@.len(),
            found == spec_has_repr_c(attrs@.take(i as int)),
        decreases attrs.len() - i,
    {
        assert(attrs@.take(i + 1).drop_last() =~= attrs@.take(i as int));
        let a = &attrs[i];
        let is_repr = match &a.ident {
            Some(n) => str_eq(n.as_str(), "repr"),
            None => false,
        };
        let is_c = match &a.meta {
            AttrMeta::List { items } => match items {
                Ok(v) => v.len() == 1 && match &v[0] {
                    NestedMeta::Meta { path } => match path {
                        Some(p) => str_eq(p.as_str(), "C"),
                        None => false,
                    },
                    _ => false,
                },
                Err(_) => false,
            },
            _ => false,
        };
        found = found || (is_repr && is_c);
        i = i + 1;
    }
    assert(attrs@.take(attrs@.len() as int) =~= attrs@);
    found
}

/// The metadata names each format and level by the name the attribute parser reads back as that
/// format or level.
pub proof fn lemma_names_read_back(f: Format, l: Level)
    ensures
        spec_format_of(spec_format_name(f)) == Some(f),
        spec_level_of(spec_level_name(l)) == Some(l),
{
    reveal_strlit("integer");
    reveal_strlit("bitmap");
    reveal_strlit("duration");
    reveal_strlit("bytes");
    reveal_strlit("info");
    reveal_strlit("diag");
    reveal_strlit("debug");
    assert("bitmap"@.len() != "integer"@.len());
    assert("duration"@.len() != "integer"@.len() && "duration"@.len() != "bitmap"@.len());
    assert("bytes"@.len() != "integer"@.len() && "bytes"@.len() != "bitmap"@.len() && "bytes"@.len() != "duration"@.len());
    assert("diag"@[0] != "info"@[0]);
    assert("debug"@.len() != "info"@.len() && "debug"@.len() != "diag"@.len());
}

/// A metric is named after its field, sits `8 * i` bytes into the struct for the field at
/// position `i`, and the metadata gives it the type named by an attribute the field carries
/// (`#[counter]` or `#[gauge]`).
pub proof fn lemma_metric_type_from_attribute(f: StatField, i: nat)
    ensures
        spec_metric(f, i) matches Ok(m) ==> {
            &&& has_attr_named(f.attrs@, spec_type_name(m.1))
            &&& m.0 == f.ident@
            &&& m.6 == Some((8 * i) as usize)
        },
{
}

} // verus!
