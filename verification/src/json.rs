//! JSON values, as the VMOD metadata is written, and what of it this library computes.
use vstd::prelude::*;

verus! {

/// A JSON value.
#[derive(Debug)]
pub enum Json {
    Null,
    Bool(bool),
    Num(u64),
    Str(String),
    Arr(Vec<Json>),
    Obj(Vec<(String, Json)>),
}

/// The value a [`Json`] stands for.
pub enum JsonV {
    Null,
    Bool(bool),
    Num(u64),
    Str(Seq<char>),
    Arr(Seq<JsonV>),
    Obj(Seq<(Seq<char>, JsonV)>),
}

pub open spec fn json_view(j: Json) -> JsonV
    decreases j,
{
    match j {
        Json::Null => JsonV::Null,
        Json::Bool(b) => JsonV::Bool(b),
        Json::Num(n) => JsonV::Num(n),
        Json::Str(s) => JsonV::Str(s@),
        Json::Arr(v) => JsonV::Arr(Seq::new(v@.len(), |i: int| if 0 <= i < v@.len() { json_view(v@[i]) } else { JsonV::Null })),
        Json::Obj(v) => JsonV::Obj(Seq::new(v@.len(), |i: int| if 0 <= i < v@.len() { (v@[i].0@, json_view(v@[i].1)) } else { (Seq::empty(), JsonV::Null) })),
    }
}

/// A lowercase hexadecimal digit.
pub open spec fn hex_lower(d: int) -> char {
    if d < 10 { (('0' as int) + d) as char } else { (('a' as int) + d - 10) as char }
}

/// How `serde_json` writes one character of a string: `"` and `\` behind a backslash, the
/// control characters with a short escape where JSON has one (`\b`, `\t`, `\n`, `\f`, `\r`)
/// and as `\u00XX` otherwise, every other character as itself.
pub open spec fn spec_json_escape_char(c: char) -> Seq<char> {
    let n = c as int;
    if c == '"' {
        seq!['\\', '"']
    } else if c == '\\' {
        seq!['\\', '\\']
    } else if n == 8 {
        seq!['\\', 'b']
    } else if n == 9 {
        seq!['\\', 't']
    } else if n == 10 {
        seq!['\\', 'n']
    } else if n == 12 {
        seq!['\\', 'f']
    } else if n == 13 {
        seq!['\\', 'r']
    } else if n < 32 {
        seq!['\\', 'u', '0', '0', hex_lower(n / 16), hex_lower(n % 16)]
    } else {
        seq![c]
    }
}

/// The characters of a string, each as `serde_json` writes it.
pub open spec fn spec_json_escape(s: Seq<char>) -> Seq<char>
    decreases s.len(),
{
    if s.len() == 0 {
        Seq::empty()
    } else {
        spec_json_escape(s.drop_last()) + spec_json_escape_char(s.last())
    }
}

/// The JSON text of a string value: the string quoted, with its special characters escaped, as
/// `serde_json` writes it.
pub open spec fn spec_json_quote(s: Seq<char>) -> Seq<char> {
    seq!['"'] + spec_json_escape(s) + seq!['"']
}

/// `serde_json::to_string` on a string: its JSON text. Writing a string cannot fail.
#[verifier::external_body]
pub(crate) fn json_quote(s: &str) -> (r: String)
    ensures
        r@ == spec_json_quote(s@),
{
    match serde_json::to_string(s) {
        Ok(t) => t,
        Err(_) => String::new(),
    }
}

/// The JSON text `serde_json` writes back for the value it reads from `text`; none when `text`
/// does not read as JSON. A function of the text alone.
pub uninterp spec fn spec_json_reread(text: Seq<char>) -> Option<Seq<char>>;

/// `serde_json::from_str::<serde_json::Value>` on `text`, and the read value written back as
/// text: how a numeric literal becomes the JSON text of its value.
#[verifier::external_body]
pub(crate) fn json_number_text(text: &str) -> (r: Option<String>)
    ensures
        r matches Some(t) ==> spec_json_reread(text@) == Some(t@),
        r is None <==> spec_json_reread(text@) is None,
{
    match serde_json::from_str::<serde_json::Value>(text) {
        Ok(v) => Some(v.to_string()),
        Err(_) => None,
    }
}

/// The views of a list of values.
pub open spec fn jsons_view(v: Seq<Json>) -> Seq<JsonV> {
    v.map_values(|x: Json| json_view(x))
}

/// An array of the given values.
pub fn arr(items: Vec<Json>) -> (j: Json)
    ensures
        json_view(j) == JsonV::Arr(jsons_view(items@)),
{
    let ghost v = items@;
    let j = Json::Arr(items);
    proof {
        assert(json_view(j) is Arr);
        let w = json_view(j)->Arr_0;
        assert(w.len() == v.len());
        assert forall|i: int| 0 <= i < v.len() implies w[i] == json_view(v[i]) by {}
        assert(w =~= jsons_view(v));
    }
    j
}

/// A string value.
pub fn str_json(s: &str) -> (j: Json)
    ensures
        json_view(j) == JsonV::Str(s@),
{
    Json::Str(s.to_string())
}

/// A copy of a value.
pub fn clone_json(j: &Json) -> (r: Json)
    ensures
        json_view(r) == json_view(*j),
    decreases j,
{
    match j {
        Json::Null => Json::Null,
        Json::Bool(b) => Json::Bool(*b),
        Json::Num(n) => Json::Num(*n),
        Json::Str(s) => str_json(s.as_str()),
        Json::Arr(v) => {
            let mut out: Vec<Json> = Vec::new();
            let mut i: usize = 0;
            while i < v.len()
                invariant
                    i <= v@.len(),
                    *j == Json::Arr(*v),
                    jsons_view(out@) == jsons_view(v@).take(i as int),
                decreases v.len() - i,
            {
                let ghost before = jsons_view(out@);
                proof {
                    let jj = *j;
                    assert(decreases_to!(jj => jj->Arr_0));
                    assert(decreases_to!(jj->Arr_0 => (jj->Arr_0)@));
                    assert(decreases_to!((jj->Arr_0)@ => (jj->Arr_0)@[i as int]));
                }
                out.push(clone_json(&v[i]));
                assert(jsons_view(out@) =~= before.push(json_view(v@[i as int])));
                assert(jsons_view(v@).take(i + 1) =~= jsons_view(v@).take(i as int).push(json_view(v@[i as int])));
                i = i + 1;
            }
            assert(jsons_view(v@).take(v@.len() as int) =~= jsons_view(v@));
            let r = arr(out);
            proof {
                assert(json_view(*j) is Arr);
                let w = json_view(*j)->Arr_0;
                assert(w =~= jsons_view(v@));
            }
            r
        },
        Json::Obj(v) => {
            let mut out: Vec<(String, Json)> = Vec::new();
            let mut i: usize = 0;
            while i < v.len()
                invariant
                    i <= v@.len(),
                    *j == Json::Obj(*v),
                    out@.len() == i,
                    forall|k: int| 0 <= k < i ==> (#[trigger] out@[k]).0@ == v@[k].0@ && json_view(out@[k].1) == json_view(v@[k].1),
                decreases v.len() - i,
            {
                let (key, val) = &v[i];
                proof {
                    let jj = *j;
                    assert(decreases_to!(jj => jj->Obj_0));
                    assert(decreases_to!(jj->Obj_0 => (jj->Obj_0)@));
                    assert(decreases_to!((jj->Obj_0)@ => (jj->Obj_0)@[i as int]));
                    assert(decreases_to!((jj->Obj_0)@[i as int] => (jj->Obj_0)@[i as int].1));
                }
                out.push((key.clone(), clone_json(val)));
                i = i + 1;
            }
            let r = Json::Obj(out);
            proof {
                assert(json_view(r) is Obj && json_view(*j) is Obj);
                assert(json_view(r)->Obj_0 =~= json_view(*j)->Obj_0);
            }
            r
        },
    }
}

/// The views of the entries of an object.
pub open spec fn pairs_view(v: Seq<(String, Json)>) -> Seq<(Seq<char>, JsonV)> {
    v.map_values(|p: (String, Json)| (p.0@, json_view(p.1)))
}

/// An object with the given entries, in order.
pub fn obj(items: Vec<(String, Json)>) -> (j: Json)
    ensures
        json_view(j) == JsonV::Obj(pairs_view(items@)),
{
    let ghost v = items@;
    let j = Json::Obj(items);
    proof {
        assert(json_view(j) is Obj);
        let w = json_view(j)->Obj_0;
        assert(w =~= pairs_view(v));
    }
    j
}

} // verus!
