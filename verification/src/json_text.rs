//! The JSON text of a value, as `serde_json` writes it: pretty, with two spaces of indentation
//! per level, or compact.
//!
//! Both layouts are short to state (`serde_json`'s `PrettyFormatter` and `CompactFormatter`):
//! `null`, `true` and `false`; numbers in decimal; strings quoted (see [`spec_json_quote`]);
//! an empty array or object as `[]` or `{}`; otherwise, pretty, each item or entry on a line of
//! its own, one level deeper, with `,` after every item but the last, and the closing bracket on
//! a line of its own at the level of the opening one, an entry being its quoted key, `: ` and its
//! value; compact, the items or entries one after another, separated by `,`, an entry being its
//! quoted key, `:` and its value. Entries come in the order the object holds them.
use vstd::prelude::*;
use crate::json::{Json, JsonV, json_view, jsons_view, json_quote, spec_json_quote};
use crate::text::{decimal, spec_decimal, push_char};
use vstd::string::StringExecFns;

verus! {

/// The text of a keyword value.
pub open spec fn spec_json_keyword(j: JsonV) -> Seq<char> {
    match j {
        JsonV::Bool(true) => seq!['t', 'r', 'u', 'e'],
        JsonV::Bool(false) => seq!['f', 'a', 'l', 's', 'e'],
        _ => seq!['n', 'u', 'l', 'l'],
    }
}

/// The text of the item or entry at index `i` comes after this: a new line, with a comma before
/// it but for the first.
pub open spec fn spec_pretty_sep(i: int) -> Seq<char> {
    if i == 0 { seq!['\n'] } else { seq![',', '\n'] }
}

/// The pretty text of `j`, at a level indented by `ind`.
pub open spec fn spec_pretty_at(j: JsonV, ind: Seq<char>) -> Seq<char>
    decreases j,
{
    match j {
        JsonV::Null | JsonV::Bool(_) => spec_json_keyword(j),
        JsonV::Num(n) => spec_decimal(n as nat),
        JsonV::Str(s) => spec_json_quote(s),
        JsonV::Arr(v) => if v.len() == 0 {
            seq!['[', ']']
        } else {
            seq!['['] + spec_pretty_items(v, ind + seq![' ', ' ']) + seq!['\n'] + ind + seq![']']
        },
        JsonV::Obj(v) => if v.len() == 0 {
            seq!['{', '}']
        } else {
            seq!['{'] + spec_pretty_entries(v, ind + seq![' ', ' ']) + seq!['\n'] + ind + seq!['}']
        },
    }
}

/// The pretty items of an array, each on a line indented by `ind`.
pub open spec fn spec_pretty_items(v: Seq<JsonV>, ind: Seq<char>) -> Seq<char>
    decreases v,
{
    if v.len() == 0 {
        Seq::empty()
    } else {
        proof {
            assert(decreases_to!(v => v[v.len() - 1]));
        }
        spec_pretty_items(v.drop_last(), ind) + spec_pretty_sep(v.len() - 1) + ind
            + spec_pretty_at(v[v.len() - 1], ind)
    }
}

/// The pretty entries of an object, each on a line indented by `ind`.
pub open spec fn spec_pretty_entries(v: Seq<(Seq<char>, JsonV)>, ind: Seq<char>) -> Seq<char>
    decreases v,
{
    if v.len() == 0 {
        Seq::empty()
    } else {
        proof {
            assert(decreases_to!(v => v[v.len() - 1]));
            assert(decreases_to!(v[v.len() - 1] => v[v.len() - 1].1));
        }
        spec_pretty_entries(v.drop_last(), ind) + spec_pretty_sep(v.len() - 1) + ind
            + spec_json_quote(v[v.len() - 1].0) + seq![':', ' '] + spec_pretty_at(v[v.len() - 1].1, ind)
    }
}

/// The pretty text of `j`, as `serde_json::to_string_pretty` writes it.
pub open spec fn spec_json_pretty(j: JsonV) -> Seq<char> {
    spec_pretty_at(j, Seq::empty())
}

/// The compact text of `j`.
pub open spec fn spec_compact(j: JsonV) -> Seq<char>
    decreases j,
{
    match j {
        JsonV::Null | JsonV::Bool(_) => spec_json_keyword(j),
        JsonV::Num(n) => spec_decimal(n as nat),
        JsonV::Str(s) => spec_json_quote(s),
        JsonV::Arr(v) => seq!['['] + spec_compact_items(v) + seq![']'],
        JsonV::Obj(v) => seq!['{'] + spec_compact_entries(v) + seq!['}'],
    }
}

/// The compact items of an array, separated by commas.
pub open spec fn spec_compact_items(v: Seq<JsonV>) -> Seq<char>
    decreases v,
{
    if v.len() == 0 {
        Seq::empty()
    } else {
        proof {
            assert(decreases_to!(v => v[v.len() - 1]));
        }
        spec_compact_items(v.drop_last()) + (if v.len() == 1 { Seq::empty() } else { seq![','] })
            + spec_compact(v[v.len() - 1])
    }
}

/// The compact entries of an object, separated by commas.
pub open spec fn spec_compact_entries(v: Seq<(Seq<char>, JsonV)>) -> Seq<char>
    decreases v,
{
    if v.len() == 0 {
        Seq::empty()
    } else {
        proof {
            assert(decreases_to!(v => v[v.len() - 1]));
            assert(decreases_to!(v[v.len() - 1] => v[v.len() - 1].1));
        }
        spec_compact_entries(v.drop_last()) + (if v.len() == 1 { Seq::empty() } else { seq![','] })
            + spec_json_quote(v[v.len() - 1].0) + seq![':'] + spec_compact(v[v.len() - 1].1)
    }
}

/// The compact text of `j`, as `serde_json::to_string` writes it.
pub open spec fn spec_json_compact(j: JsonV) -> Seq<char> {
    spec_compact(j)
}

fn keyword(j: &Json) -> (r: String)
    requires
        *j is Null || *j is Bool,
    ensures
        r@ == spec_json_keyword(json_view(*j)),
{
    let mut s = String::new();
    match j {
        Json::Bool(true) => {
            push_char(&mut s, 't'); push_char(&mut s, 'r'); push_char(&mut s, 'u'); push_char(&mut s, 'e');
        },
        Json::Bool(false) => {
            push_char(&mut s, 'f'); push_char(&mut s, 'a'); push_char(&mut s, 'l'); push_char(&mut s, 's');
            push_char(&mut s, 'e');
        },
        _ => {
            push_char(&mut s, 'n'); push_char(&mut s, 'u'); push_char(&mut s, 'l'); push_char(&mut s, 'l');
        },
    }
    assert(s@ =~= spec_json_keyword(json_view(*j)));
    s
}

proof fn lemma_arr_view(j: Json, v: Vec<Json>)
    requires
        j == Json::Arr(v),
    ensures
        json_view(j) == JsonV::Arr(jsons_view(v@)),
{
    assert(json_view(j)->Arr_0 =~= jsons_view(v@));
}

/// The views of the entries of an object.
pub open spec fn entries_view(v: Seq<(String, Json)>) -> Seq<(Seq<char>, JsonV)> {
    v.map_values(|p: (String, Json)| (p.0@, json_view(p.1)))
}

proof fn lemma_obj_view(j: Json, v: Vec<(String, Json)>)
    requires
        j == Json::Obj(v),
    ensures
        json_view(j) == JsonV::Obj(entries_view(v@)),
{
    assert(json_view(j)->Obj_0 =~= entries_view(v@));
}

fn push_sep(s: &mut String, i: usize)
    ensures
        final(s)@ == old(s)@ + spec_pretty_sep(i as int),
{
    if i != 0 {
        push_char(s, ',');
    }
    push_char(s, '\n');
    assert(final(s)@ =~= old(s)@ + spec_pretty_sep(i as int));
}

fn pretty_at(j: &Json, ind: &str) -> (r: String)
    ensures
        r@ == spec_pretty_at(json_view(*j), ind@),
    decreases j,
{
    match j {
        Json::Null | Json::Bool(_) => keyword(j),
        Json::Num(n) => decimal(*n),
        Json::Str(t) => json_quote(t.as_str()),
        Json::Arr(v) => {
            proof {
                lemma_arr_view(*j, *v);
            }
            let ghost vs = jsons_view(v@);
            let mut s = String::new();
            push_char(&mut s, '[');
            if v.len() == 0 {
                push_char(&mut s, ']');
                assert(s@ =~= seq!['[', ']']);
                return s;
            }
            let mut ind2 = ind.to_string();
            push_char(&mut ind2, ' ');
            push_char(&mut ind2, ' ');
            assert(ind2@ =~= ind@ + seq![' ', ' ']);
            let mut i: usize = 0;
            while i < v.len()
                invariant
                    i <= v@.len(),
                    *j == Json::Arr(*v),
                    vs == jsons_view(v@),
                    ind2@ == ind@ + seq![' ', ' '],
                    s@ == seq!['['] + spec_pretty_items(vs.take(i as int), ind2@),
                decreases v.len() - i,
            {
                proof {
                    let jj = *j;
                    assert(decreases_to!(jj => jj->Arr_0));
                    assert(decreases_to!(jj->Arr_0 => (jj->Arr_0)@));
                    assert(decreases_to!((jj->Arr_0)@ => (jj->Arr_0)@[i as int]));
                }
                let ghost before = s@;
                push_sep(&mut s, i);
                s.append(ind2.as_str());
                let t = pretty_at(&v[i], ind2.as_str());
                s.append(t.as_str());
                proof {
                    let tk = vs.take(i + 1);
                    assert(tk.drop_last() =~= vs.take(i as int));
                    assert(tk[tk.len() - 1] == json_view(v@[i as int]));
                    assert(s@ =~= seq!['['] + spec_pretty_items(tk, ind2@));
                }
                i = i + 1;
            }
            assert(vs.take(v@.len() as int) =~= vs);
            push_char(&mut s, '\n');
            s.append(ind);
            push_char(&mut s, ']');
            assert(s@ =~= spec_pretty_at(json_view(*j), ind@));
            s
        },
        Json::Obj(v) => {
            proof {
                lemma_obj_view(*j, *v);
            }
            let ghost vs = entries_view(v@);
            let mut s = String::new();
            push_char(&mut s, '{');
            if v.len() == 0 {
                push_char(&mut s, '}');
                assert(s@ =~= seq!['{', '}']);
                return s;
            }
            let mut ind2 = ind.to_string();
            push_char(&mut ind2, ' ');
            push_char(&mut ind2, ' ');
            assert(ind2@ =~= ind@ + seq![' ', ' ']);
            let mut i: usize = 0;
            while i < v.len()
                invariant
                    i <= v@.len(),
                    *j == Json::Obj(*v),
                    vs == entries_view(v@),
                    ind2@ == ind@ + seq![' ', ' '],
                    s@ == seq!['{'] + spec_pretty_entries(vs.take(i as int), ind2@),
                decreases v.len() - i,
            {
                let (key, val) = &v[i];
                proof {
                    let jj = *j;
                    assert(decreases_to!(jj => jj->Obj_0));
                    assert(decreases_to!(jj->Obj_0 => (jj->Obj_0)@));
                    assert(decreases_to!((jj->Obj_0)@ => (jj->Obj_0)@[i as int]));
                    assert(decreases_to!((jj->Obj_0)@[i as int] => (jj->Obj_0)@[i as int].1));
                }
                push_sep(&mut s, i);
                s.append(ind2.as_str());
                let q = json_quote(key.as_str());
                s.append(q.as_str());
                push_char(&mut s, ':');
                push_char(&mut s, ' ');
                let t = pretty_at(val, ind2.as_str());
                s.append(t.as_str());
                proof {
                    let tk = vs.take(i + 1);
                    assert(tk.drop_last() =~= vs.take(i as int));
                    assert(tk[tk.len() - 1] == (key@, json_view(*val)));
                    assert(s@ =~= seq!['{'] + spec_pretty_entries(tk, ind2@));
                }
                i = i + 1;
            }
            assert(vs.take(v@.len() as int) =~= vs);
            push_char(&mut s, '\n');
            s.append(ind);
            push_char(&mut s, '}');
            assert(s@ =~= spec_pretty_at(json_view(*j), ind@));
            s
        },
    }
}

/// The pretty JSON text of `j`.
pub fn json_pretty(j: &Json) -> (r: String)
    ensures
        r@ == spec_json_pretty(json_view(*j)),
{
    let top = String::new();
    pretty_at(j, top.as_str())
}

fn compact(j: &Json) -> (r: String)
    ensures
        r@ == spec_compact(json_view(*j)),
    decreases j,
{
    match j {
        Json::Null | Json::Bool(_) => keyword(j),
        Json::Num(n) => decimal(*n),
        Json::Str(t) => json_quote(t.as_str()),
        Json::Arr(v) => {
            proof {
                lemma_arr_view(*j, *v);
            }
            let ghost vs = jsons_view(v@);
            let mut s = String::new();
            push_char(&mut s, '[');
            let mut i: usize = 0;
            while i < v.len()
                invariant
                    i <= v@.len(),
                    *j == Json::Arr(*v),
                    vs == jsons_view(v@),
                    s@ == seq!['['] + spec_compact_items(vs.take(i as int)),
                decreases v.len() - i,
            {
                proof {
                    let jj = *j;
                    assert(decreases_to!(jj => jj->Arr_0));
                    assert(decreases_to!(jj->Arr_0 => (jj->Arr_0)@));
                    assert(decreases_to!((jj->Arr_0)@ => (jj->Arr_0)@[i as int]));
                }
                let ghost before = s@;
                if i != 0 {
                    push_char(&mut s, ',');
                }
                let t = compact(&v[i]);
                s.append(t.as_str());
                proof {
                    let tk = vs.take(i + 1);
                    assert(tk.drop_last() =~= vs.take(i as int));
                    assert(tk[tk.len() - 1] == json_view(v@[i as int]));
                    assert(s@ =~= seq!['['] + spec_compact_items(tk));
                }
                i = i + 1;
            }
            assert(vs.take(v@.len() as int) =~= vs);
            push_char(&mut s, ']');
            assert(s@ =~= spec_compact(json_view(*j)));
            s
        },
        Json::Obj(v) => {
            proof {
                lemma_obj_view(*j, *v);
            }
            let ghost vs = entries_view(v@);
            let mut s = String::new();
            push_char(&mut s, '{');
            let mut i: usize = 0;
            while i < v.len()
                invariant
                    i <= v@.len(),
                    *j == Json::Obj(*v),
                    vs == entries_view(v@),
                    s@ == seq!['{'] + spec_compact_entries(vs.take(i as int)),
                decreases v.len() - i,
            {
                let (key, val) = &v[i];
                proof {
                    let jj = *j;
                    assert(decreases_to!(jj => jj->Obj_0));
                    assert(decreases_to!(jj->Obj_0 => (jj->Obj_0)@));
                    assert(decreases_to!((jj->Obj_0)@ => (jj->Obj_0)@[i as int]));
                    assert(decreases_to!((jj->Obj_0)@[i as int] => (jj->Obj_0)@[i as int].1));
                }
                if i != 0 {
                    push_char(&mut s, ',');
                }
                let q = json_quote(key.as_str());
                s.append(q.as_str());
                push_char(&mut s, ':');
                let t = compact(val);
                s.append(t.as_str());
                proof {
                    let tk = vs.take(i + 1);
                    assert(tk.drop_last() =~= vs.take(i as int));
                    assert(tk[tk.len() - 1] == (key@, json_view(*val)));
                    assert(s@ =~= seq!['{'] + spec_compact_entries(tk));
                }
                i = i + 1;
            }
            assert(vs.take(v@.len() as int) =~= vs);
            push_char(&mut s, '}');
            assert(s@ =~= spec_compact(json_view(*j)));
            s
        },
    }
}

/// The compact JSON text of `j`.
pub fn json_compact(j: &Json) -> (r: String)
    ensures
        r@ == spec_json_compact(json_view(*j)),
{
    compact(j)
}

} // verus!
