//! The generated module of a VMOD: the exports of its functions and objects, the structures
//! Varnish reads to load it, and its JSON description.
use vstd::prelude::*;
use crate::gen_func::{FuncProcessor, func_proc_ok, spec_each, texts, each};
use crate::gen_objects::{ObjProcessor, obj_proc_ok, obj_wf};
use crate::json::{Json, JsonV, json_view, jsons_view, arr, str_json, clone_json};
use crate::model::{FuncInfo, ObjInfo, SharedTypes, VmodInfo, output_ty_wf, count_funcs_in, all_funcs,
    FuncFilter, spec_per_vcl_ty};
use crate::names::Names;
use crate::text::{cat, chars_of, push_char};
use crate::vsc::first_nul;
use crate::fingerprint::{model_json, spec_model_json};
use crate::json_text::{json_compact, json_pretty, spec_json_compact, spec_json_pretty};
use crate::parser::vmod_info_view;
use vstd::string::StringSliceAdditionalSpecFns;
use vstd::utf8::encode_utf8;

verus! {

broadcast use vstd::string::group_string_axioms;

// ---------------------------------------------------------------------------------------------
// Hashing the model

/// The SHA-256 digest of some bytes.
pub uninterp spec fn spec_sha256(data: Seq<u8>) -> Seq<u8>;

/// `sha2::Sha256::digest`: the 32-byte SHA-256 digest of `data`.
#[verifier::external_body]
fn sha256(data: &[u8]) -> (r: Vec<u8>)
    ensures
        r@ == spec_sha256(data@),
        r@.len() == 32,
{
    <sha2::Sha256 as sha2::Digest>::digest(data).to_vec()
}

/// The text the file id of a model hashes: the compact JSON text of its canonical encoding.
pub open spec fn spec_model_text(info: VmodInfo) -> Seq<char> {
    spec_json_compact(spec_model_json(vmod_info_view(info)))
}

/// The file id of a model: the hexadecimal SHA-256 digest of its text.
pub open spec fn spec_file_id(info: VmodInfo) -> Seq<char> {
    spec_hex(spec_sha256(encode_utf8(spec_model_text(info))))
}

/// The lowercase hexadecimal digit `d`.
pub open spec fn spec_hex_digit(d: nat) -> char {
    if d < 10 { crate::text::spec_digit(d) } else if d == 10 { 'a' } else if d == 11 { 'b' } else if d == 12 { 'c' }
    else if d == 13 { 'd' } else if d == 14 { 'e' } else { 'f' }
}

/// Each byte as two lowercase hexadecimal digits.
pub open spec fn spec_hex(bytes: Seq<u8>) -> Seq<char>
    decreases bytes.len(),
{
    if bytes.len() == 0 {
        Seq::empty()
    } else {
        spec_hex(bytes.drop_last()) + seq![spec_hex_digit((bytes.last() / 16) as nat), spec_hex_digit((bytes.last() % 16) as nat)]
    }
}

fn hex_digit(d: u32) -> (c: char)
    requires
        d < 16,
    ensures
        c == spec_hex_digit(d as nat),
{
    if d < 10 {
        let mut s = crate::text::decimal(d as u64);
        let cs = chars_of(s.as_str());
        assert(crate::text::spec_decimal(d as nat) == seq![crate::text::spec_digit(d as nat)]);
        cs[0]
    } else if d == 10 { 'a' } else if d == 11 { 'b' } else if d == 12 { 'c' }
    else if d == 13 { 'd' } else if d == 14 { 'e' } else { 'f' }
}

/// Each byte as two lowercase hexadecimal digits.
pub fn hex(bytes: &[u8]) -> (r: String)
    ensures
        r@ == spec_hex(bytes@),
{
    let mut s = String::new();
    let mut i: usize = 0;
    while i < bytes.len()
        invariant
            i <= bytes@.len(),
            s@ == spec_hex(bytes@.take(i as int)),
        decreases bytes.len() - i,
    {
        assert(bytes@.take(i + 1).drop_last() =~= bytes@.take(i as int));
        let b = bytes[i];
        push_char(&mut s, hex_digit((b / 16) as u32));
        push_char(&mut s, hex_digit((b % 16) as u32));
        i = i + 1;
    }
    assert(bytes@.take(bytes@.len() as int) =~= bytes@);
    s
}

/// The file id of a model whose text is `text`: the hexadecimal SHA-256 digest of the text.
pub fn file_id_of(text: &str) -> (r: String)
    ensures
        r@ == spec_hex(spec_sha256(text.spec_bytes())),
        r@.len() == 64,
{
    let d = sha256(text.as_bytes());
    proof {
        lemma_hex_len(d@);
    }
    hex(d.as_slice())
}

proof fn lemma_hex_len(bytes: Seq<u8>)
    ensures
        spec_hex(bytes).len() == 2 * bytes.len(),
    decreases bytes.len(),
{
    if bytes.len() > 0 {
        lemma_hex_len(bytes.drop_last());
    }
}

/// Use the entire model to generate a hash: 64 hexadecimal digits, somewhat consistent and
/// unique for each set of functions.
pub fn calc_file_id(info: &VmodInfo) -> (r: String)
    ensures
        r@.len() == 64,
        first_nul(r@) is None,
        r@ == spec_file_id(*info),
{
    let text = json_compact(&model_json(info));
    let ts = text.as_str();
    let r = file_id_of(ts);
    proof {
        lemma_hex_no_nul(spec_sha256(ts.spec_bytes()));
    }
    r
}

proof fn lemma_hex_no_nul(bytes: Seq<u8>)
    ensures
        first_nul(spec_hex(bytes)) is None,
    decreases bytes.len(),
{
    if bytes.len() > 0 {
        lemma_hex_no_nul(bytes.drop_last());
        let a = spec_hex(bytes.drop_last());
        let b = seq![spec_hex_digit((bytes.last() / 16) as nat), spec_hex_digit((bytes.last() % 16) as nat)];
        let h = spec_hex(bytes);
        assert(h == a + b);
        assert(b[0] != '\0' && b[1] != '\0');
        assert(first_nul(a.push(b[0])) is None) by {
            assert(a.push(b[0]).drop_last() =~= a);
        }
        assert(first_nul(h) is None) by {
            assert(h.drop_last() =~= a.push(b[0]));
        }
    }
}

// ---------------------------------------------------------------------------------------------
// C string literals

/// How a character is written in a C string literal of the generated code.
pub open spec fn spec_esc_char(c: char) -> Seq<char> {
    if c == '"' {
        seq!['\\', '"']
    } else if c == '\\' {
        seq!['\\', '\\']
    } else if c == '\n' {
        seq!['\\', 'n']
    } else if c == '\r' {
        seq!['\\', 'r']
    } else if c == '\t' {
        seq!['\\', 't']
    } else if (c as u32) < 0x20 || (c as u32) == 0x7f {
        seq!['\\', 'u', '{', spec_hex_digit(((c as u32) / 16) as nat), spec_hex_digit(((c as u32) % 16) as nat), '}']
    } else {
        seq![c]
    }
}

pub open spec fn spec_escape(s: Seq<char>) -> Seq<char>
    decreases s.len(),
{
    if s.len() == 0 { Seq::empty() } else { spec_escape(s.drop_last()) + spec_esc_char(s.last()) }
}

/// The C string literal holding `s`.
pub open spec fn spec_cstr_lit(s: Seq<char>) -> Seq<char> {
    seq!['c', '"'] + spec_escape(s) + seq!['"']
}

fn push_all(s: &mut String, cs: Vec<char>)
    ensures
        final(s)@ == old(s)@ + cs@,
{
    let mut i: usize = 0;
    while i < cs.len()
        invariant
            i <= cs@.len(),
            s@ == old(s)@ + cs@.take(i as int),
        decreases cs.len() - i,
    {
        push_char(s, cs[i]);
        assert(cs@.take(i + 1) =~= cs@.take(i as int).push(cs@[i as int]));
        i = i + 1;
    }
    assert(cs@.take(cs@.len() as int) =~= cs@);
}

fn esc_char(c: char) -> (r: Vec<char>)
    ensures
        r@ == spec_esc_char(c),
{
    let r: Vec<char> = if c == '"' {
        vec!['\\', '"']
    } else if c == '\\' {
        vec!['\\', '\\']
    } else if c == '\n' {
        vec!['\\', 'n']
    } else if c == '\r' {
        vec!['\\', 'r']
    } else if c == '\t' {
        vec!['\\', 't']
    } else if (c as u32) < 0x20 || (c as u32) == 0x7f {
        let v = c as u32;
        vec!['\\', 'u', '{', hex_digit(v / 16), hex_digit(v % 16), '}']
    } else {
        vec![c]
    };
    assert(r@ =~= spec_esc_char(c));
    r
}

/// The C string literal holding `s`, which has no NUL.
pub fn cstr_lit(s: &str) -> (r: String)
    requires
        first_nul(s@) is None,
    ensures
        r@ == spec_cstr_lit(s@),
{
    let cs = chars_of(s);
    let mut out = String::new();
    push_char(&mut out, 'c');
    push_char(&mut out, '"');
    let ghost start = out@;
    let mut i: usize = 0;
    while i < cs.len()
        invariant
            i <= cs@.len(),
            cs@ == s@,
            start == seq!['c', '"'],
            out@ == start + spec_escape(cs@.take(i as int)),
        decreases cs.len() - i,
    {
        assert(cs@.take(i + 1).drop_last() =~= cs@.take(i as int));
        push_all(&mut out, esc_char(cs[i]));
        assert(out@ =~= start + spec_escape(cs@.take(i + 1)));
        i = i + 1;
    }
    assert(cs@.take(cs@.len() as int) =~= cs@);
    push_char(&mut out, '"');
    assert(out@ =~= spec_cstr_lit(s@));
    out
}


// ---------------------------------------------------------------------------------------------
// The generated module

/// A model the generator can work on: free functions and event handlers, and objects, as the
/// parser makes them.
pub open spec fn vmod_wf(v: VmodInfo) -> bool {
    &&& forall|i: int| 0 <= i < v.funcs@.len() ==> ((#[trigger] v.funcs@[i]).func_type is Function
        || v.funcs@[i].func_type is Event) && output_ty_wf(v.funcs@[i].output_ty)
    &&& forall|i: int| 0 <= i < v.objects@.len() ==> obj_wf(#[trigger] v.objects@[i])
}

/// Everything the VMOD exports.
pub struct Generator {
    pub names: Names,
    /// The hash of the model
    pub file_id: String,
    pub functions: Vec<FuncProcessor>,
    pub objects: Vec<ObjProcessor>,
}

/// `g` holds what the VMOD `v` exports: one processor per free function, one per object, in
/// order, all named within the module.
pub open spec fn generator_ok(g: Generator, v: VmodInfo) -> bool {
    &&& g.names.spec_module() == v.ident@
    &&& g.names.spec_object() is None
    &&& g.names.spec_function() is None
    &&& g.file_id@.len() == 64 && first_nul(g.file_id@) is None
    &&& g.file_id@ == spec_file_id(v)
    &&& g.functions@.len() == v.funcs@.len()
    &&& forall|i: int| 0 <= i < v.funcs@.len() ==> {
        &&& func_proc_ok(#[trigger] g.functions@[i], v.funcs@[i], v.shared_types)
        &&& g.functions@[i].names.spec_module() == v.ident@
        &&& g.functions@[i].names.spec_object() is None
    }
    &&& g.objects@.len() == v.objects@.len()
    &&& forall|i: int| 0 <= i < v.objects@.len() ==> {
        &&& obj_proc_ok(#[trigger] g.objects@[i], v.objects@[i], v.shared_types)
        &&& g.objects@[i].names.spec_module() == v.ident@
    }
}

/// The functions of the objects, object after object.
pub open spec fn objs_procs(os: Seq<ObjProcessor>) -> Seq<FuncProcessor>
    decreases os.len(),
{
    if os.len() == 0 { seq![] } else { objs_procs(os.drop_last()) + os.last().funcs@ }
}

/// All the functions the VMOD exports: the free ones, then those of each object.
pub open spec fn all_procs(g: Generator) -> Seq<FuncProcessor> {
    g.functions@ + objs_procs(g.objects@)
}

pub open spec fn decls_of(fs: Seq<FuncProcessor>) -> Seq<char>
    decreases fs.len(),
{
    if fs.len() == 0 { Seq::empty() } else { decls_of(fs.drop_last()) + fs.last().cproto_typedef_decl@ }
}

pub open spec fn inits_of(fs: Seq<FuncProcessor>) -> Seq<char>
    decreases fs.len(),
{
    if fs.len() == 0 { Seq::empty() } else { inits_of(fs.drop_last()) + fs.last().cproto_typedef_init@ }
}

pub open spec fn obj_decls(os: Seq<ObjProcessor>) -> Seq<char>
    decreases os.len(),
{
    if os.len() == 0 { Seq::empty() } else { obj_decls(os.drop_last()) + os.last().cproto_typedef_decl@ }
}

pub open spec fn func_struct_of_module(m: Seq<char>) -> Seq<char> {
    "Vmod_vmod_"@ + m + "_Func"@
}

/// The C prototype of the VMOD: the objects' declarations, the functions' type declarations,
/// and the structure of exported functions.
pub open spec fn spec_cproto_all(g: Generator) -> Seq<char> {
    let fsn = func_struct_of_module(g.names.spec_module());
    obj_decls(g.objects@) + decls_of(all_procs(g)) + "\nstruct "@ + fsn + " {\n"@ + inits_of(all_procs(g))
        + "};\n\nstatic struct "@ + fsn + " "@ + fsn + ";"@
}

pub open spec fn objs_json(os: Seq<ObjProcessor>) -> Seq<JsonV> {
    os.map_values(|o: ObjProcessor| json_view(o.json))
}

/// The JSON of the VMOD: its header (with the ABI version `abi`), its C prototype, then its
/// functions and objects.
pub open spec fn spec_gen_json(g: Generator, abi: Seq<char>) -> JsonV {
    let m = g.names.spec_module();
    JsonV::Arr(seq![
        JsonV::Arr(seq![JsonV::Str("$VMOD"@), JsonV::Str("1.0"@), JsonV::Str(m), JsonV::Str(func_struct_of_module(m)),
            JsonV::Str(g.file_id@), JsonV::Str(abi), JsonV::Str("0"@), JsonV::Str("0"@)]),
        JsonV::Arr(seq![JsonV::Str("$CPROTO"@), JsonV::Str(spec_cproto_all(g))]),
    ] + crate::gen_objects::procs_json(g.functions@) + objs_json(g.objects@))
}

/// The JSON description as the generated module holds it, around its pretty text.
pub open spec fn spec_json_spec(pretty: Seq<char>) -> Seq<char> {
    "VMOD_JSON_SPEC\u{2}\n"@ + pretty + "\n\u{3}"@
}

/// Frames the pretty text of the JSON description.
pub fn frame_json_spec(pretty: &str) -> (r: String)
    ensures
        r@ == spec_json_spec(pretty@),
{
    cat(cat("VMOD_JSON_SPEC\u{2}\n", pretty).as_str(), "\n\u{3}")
}

impl Generator {
    /// The processors of every function and object of `vmod`.
    pub fn new(vmod: &VmodInfo) -> (r: Self)
        requires
            vmod_wf(*vmod),
        ensures
            generator_ok(r, *vmod),
    {
        let names = Names::new(vmod.ident.as_str());
        let file_id = calc_file_id(vmod);
        let mut functions: Vec<FuncProcessor> = Vec::new();
        let mut i: usize = 0;
        while i < vmod.funcs.len()
            invariant
                vmod_wf(*vmod),
                i <= vmod.funcs@.len(),
                names.spec_module() == vmod.ident@,
                names.spec_object() is None,
                names.spec_function() is None,
                functions@.len() == i,
                forall|j: int| 0 <= j < i ==> {
                    &&& func_proc_ok(#[trigger] functions@[j], vmod.funcs@[j], vmod.shared_types)
                    &&& functions@[j].names.spec_module() == vmod.ident@
                    &&& functions@[j].names.spec_object() is None
                },
            decreases vmod.funcs.len() - i,
        {
            let f = &vmod.funcs[i];
            assert(output_ty_wf(vmod.funcs@[i as int].output_ty));
            let n = names.to_func(f.func_type, f.ident.as_str());
            functions.push(FuncProcessor::from_info(n, f, &vmod.shared_types));
            i = i + 1;
        }
        let mut objects: Vec<ObjProcessor> = Vec::new();
        let mut k: usize = 0;
        while k < vmod.objects.len()
            invariant
                vmod_wf(*vmod),
                k <= vmod.objects@.len(),
                names.spec_module() == vmod.ident@,
                names.spec_object() is None,
                names.spec_function() is None,
                objects@.len() == k,
                forall|j: int| 0 <= j < k ==> {
                    &&& obj_proc_ok(#[trigger] objects@[j], vmod.objects@[j], vmod.shared_types)
                    &&& objects@[j].names.spec_module() == vmod.ident@
                },
            decreases vmod.objects.len() - k,
        {
            let o = &vmod.objects[k];
            assert(obj_wf(vmod.objects@[k as int]));
            let n = names.to_obj(o.ident.as_str());
            objects.push(ObjProcessor::from_info(n, o, &vmod.shared_types));
            k = k + 1;
        }
        Generator { names, file_id, functions, objects }
    }

    /// The C prototype of the VMOD.
    fn cproto(&self) -> (r: String)
        ensures
            r@ == spec_cproto_all(*self),
    {
        let ghost all = all_procs(*self);
        let mut od = String::new();
        let mut i: usize = 0;
        while i < self.objects.len()
            invariant
                i <= self.objects@.len(),
                od@ == obj_decls(self.objects@.take(i as int)),
            decreases self.objects.len() - i,
        {
            assert(self.objects@.take(i + 1).drop_last() =~= self.objects@.take(i as int));
            od = cat(od.as_str(), self.objects[i].cproto_typedef_decl.as_str());
            i = i + 1;
        }
        assert(self.objects@.take(self.objects@.len() as int) =~= self.objects@);
        let mut decls = String::new();
        let mut inits = String::new();
        let mut j: usize = 0;
        while j < self.functions.len()
            invariant
                j <= self.functions@.len(),
                decls@ == decls_of(self.functions@.take(j as int)),
                inits@ == inits_of(self.functions@.take(j as int)),
            decreases self.functions.len() - j,
        {
            assert(self.functions@.take(j + 1).drop_last() =~= self.functions@.take(j as int));
            decls = cat(decls.as_str(), self.functions[j].cproto_typedef_decl.as_str());
            inits = cat(inits.as_str(), self.functions[j].cproto_typedef_init.as_str());
            j = j + 1;
        }
        assert(self.functions@.take(self.functions@.len() as int) =~= self.functions@);
        let mut k: usize = 0;
        while k < self.objects.len()
            invariant
                k <= self.objects@.len(),
                decls@ == decls_of(self.functions@ + objs_procs(self.objects@.take(k as int))),
                inits@ == inits_of(self.functions@ + objs_procs(self.objects@.take(k as int))),
            decreases self.objects.len() - k,
        {
            let o = &self.objects[k];
            let ghost pre = self.functions@ + objs_procs(self.objects@.take(k as int));
            proof {
                assert(self.objects@.take(k + 1).drop_last() =~= self.objects@.take(k as int));
                assert(objs_procs(self.objects@.take(k + 1)) == objs_procs(self.objects@.take(k as int)) + o.funcs@);
                assert(pre + o.funcs@ =~= self.functions@ + objs_procs(self.objects@.take(k + 1)));
            }
            let mut m: usize = 0;
            while m < o.funcs.len()
                invariant
                    m <= o.funcs@.len(),
                    decls@ == decls_of(pre + o.funcs@.take(m as int)),
                    inits@ == inits_of(pre + o.funcs@.take(m as int)),
                decreases o.funcs.len() - m,
            {
                assert((pre + o.funcs@.take(m + 1)).drop_last() =~= pre + o.funcs@.take(m as int));
                assert((pre + o.funcs@.take(m + 1)).last() == o.funcs@[m as int]);
                decls = cat(decls.as_str(), o.funcs[m].cproto_typedef_decl.as_str());
                inits = cat(inits.as_str(), o.funcs[m].cproto_typedef_init.as_str());
                m = m + 1;
            }
            assert(o.funcs@.take(o.funcs@.len() as int) =~= o.funcs@);
            k = k + 1;
        }
        assert(self.objects@.take(self.objects@.len() as int) =~= self.objects@);
        let fsn = self.names.func_struct_name();
        let mut out = cat(od.as_str(), decls.as_str());
        out = cat(out.as_str(), "\nstruct ");
        out = cat(out.as_str(), fsn.as_str());
        out = cat(out.as_str(), " {\n");
        out = cat(out.as_str(), inits.as_str());
        out = cat(out.as_str(), "};\n\nstatic struct ");
        out = cat(out.as_str(), fsn.as_str());
        out = cat(out.as_str(), " ");
        out = cat(out.as_str(), fsn.as_str());
        out = cat(out.as_str(), ";");
        proof {
            assert(out@ =~= spec_cproto_all(*self));
        }
        out
    }

    /// The JSON description of the VMOD, for the ABI version `abi` of the Varnish it is built
    /// against.
    pub fn gen_json(&self, abi: &str) -> (r: Json)
        ensures
            json_view(r) == spec_gen_json(*self, abi@),
    {
        let m = self.names.mod_name();
        let fsn = self.names.func_struct_name();
        let mut head: Vec<Json> = Vec::new();
        head.push(str_json("$VMOD"));
        head.push(str_json("1.0"));
        head.push(str_json(m));
        head.push(str_json(fsn.as_str()));
        head.push(str_json(self.file_id.as_str()));
        head.push(str_json(abi));
        head.push(str_json("0"));
        head.push(str_json("0"));
        let ghost hv = jsons_view(head@);
        let mut cp: Vec<Json> = Vec::new();
        cp.push(str_json("$CPROTO"));
        cp.push(str_json(self.cproto().as_str()));
        let ghost cv = jsons_view(cp@);
        let mut items: Vec<Json> = Vec::new();
        items.push(arr(head));
        items.push(arr(cp));
        let ghost iv0 = jsons_view(items@);
        let mut i: usize = 0;
        while i < self.functions.len()
            invariant
                i <= self.functions@.len(),
                jsons_view(items@) == iv0 + crate::gen_objects::procs_json(self.functions@).take(i as int),
            decreases self.functions.len() - i,
        {
            let ghost before = jsons_view(items@);
            items.push(clone_json(&self.functions[i].json));
            assert(jsons_view(items@) =~= before.push(json_view(self.functions@[i as int].json)));
            assert(crate::gen_objects::procs_json(self.functions@).take(i + 1)
                =~= crate::gen_objects::procs_json(self.functions@).take(i as int).push(json_view(self.functions@[i as int].json)));
            i = i + 1;
        }
        assert(crate::gen_objects::procs_json(self.functions@).take(self.functions@.len() as int)
            =~= crate::gen_objects::procs_json(self.functions@));
        let ghost iv1 = jsons_view(items@);
        let mut k: usize = 0;
        while k < self.objects.len()
            invariant
                k <= self.objects@.len(),
                jsons_view(items@) == iv1 + objs_json(self.objects@).take(k as int),
            decreases self.objects.len() - k,
        {
            let ghost before = jsons_view(items@);
            items.push(clone_json(&self.objects[k].json));
            assert(jsons_view(items@) =~= before.push(json_view(self.objects@[k as int].json)));
            assert(objs_json(self.objects@).take(k + 1) =~= objs_json(self.objects@).take(k as int).push(json_view(self.objects@[k as int].json)));
            k = k + 1;
        }
        assert(objs_json(self.objects@).take(self.objects@.len() as int) =~= objs_json(self.objects@));
        let ghost iv = jsons_view(items@);
        let r = arr(items);
        proof {
            let mm = self.names.spec_module();
            assert(hv =~= seq![JsonV::Str("$VMOD"@), JsonV::Str("1.0"@), JsonV::Str(mm), JsonV::Str(func_struct_of_module(mm)),
                JsonV::Str(self.file_id@), JsonV::Str(abi@), JsonV::Str("0"@), JsonV::Str("0"@)]);
            assert(cv =~= seq![JsonV::Str("$CPROTO"@), JsonV::Str(spec_cproto_all(*self))]);
            assert(iv =~= spec_gen_json(*self, abi@)->Arr_0);
        }
        r
    }
}

/// The attributes of the generated module, its opening, and the start of its imports from the
/// FFI.
pub const MOD_HEAD: &'static str = "#[allow(non_snake_case, unused_imports, unused_qualifications, unused_variables,)] #[allow(clippy::needless_question_mark,)] mod varnish_generated { use std::ffi::{c_char, c_int, c_uint, c_void, CStr}; use std::ptr::null; use varnish::ffi::{";

/// The items imported from the FFI.
pub const FFI_ITEMS: &'static str = "VCL_BACKEND, VCL_BOOL, VCL_DURATION, VCL_INT, VCL_IP, VCL_PROBE, VCL_REAL, VCL_STRING, VCL_VOID, VMOD_ABI_Version, VclEvent, vmod_priv, vrt_ctx, VMOD_PRIV_METHODS_MAGIC, vmod_priv_methods,";

/// The end of the imports.
pub const MOD_USES: &'static str = "}; use varnish::vcl::{Ctx, IntoVCL, PerVclState, Workspace}; use super::*; ";

/// The structure of exported functions, up to its fields.
pub const EXPORTS_HEAD: &'static str = " #[repr(C)] pub struct VmodExports { ";

/// The static value of that structure, up to its fields.
pub const EXPORTS_INIT: &'static str = "} pub static VMOD_EXPORTS: VmodExports = VmodExports { ";

/// The structure Varnish reads to load the VMOD, up to the name of its static value.
pub const DATA_HEAD: &'static str = "}; #[repr(C)] pub struct VmodData { vrt_major: c_uint, vrt_minor: c_uint, file_id: *const c_char, name: *const c_char, func_name: *const c_char, func: *const c_void, func_len: c_int, proto: *const c_char, json: *const c_char, abi: *const c_char, } unsafe impl Sync for VmodData {} #[allow(non_upper_case_globals)] #[no_mangle] pub static ";

/// The start of that static value, up to the file id.
pub const DATA_INIT: &'static str = ": VmodData = VmodData { vrt_major: 0, vrt_minor: 0, file_id: ";

/// The end of that value, from the pointer to the JSON on, and the start of the JSON constant.
pub const DATA_TAIL: &'static str = ".as_ptr(), func_len: ::std::mem::size_of::<VmodExports>() as c_int, func: &VMOD_EXPORTS as *const _ as *const c_void, abi: VMOD_ABI_Version.as_ptr(), json: JSON.as_ptr(), proto: null(), }; const JSON: &CStr = ";

/// The static methods that clean up the object of type `ty_name` that a `vmod_priv` holds.
pub open spec fn spec_priv_struct(name: Seq<char>, ty_name: Seq<char>, is_vcl_state: bool) -> Seq<char> {
    "static "@ + name + ": vmod_priv_methods = vmod_priv_methods { magic: VMOD_PRIV_METHODS_MAGIC, type_: "@
        + spec_cstr_lit(ty_name) + ".as_ptr(), fini: Some(vmod_priv::"@
        + (if is_vcl_state { "on_fini_per_vcl"@ } else { "on_fini"@ }) + "::<"@ + ty_name + ">), };"@
}

/// The static methods of the state shared per task and of the state shared per VCL load, for
/// those the VMOD has.
pub open spec fn spec_priv_structs(v: VmodInfo) -> Seq<Seq<char>> {
    let a: Seq<Seq<char>> = match v.shared_types.shared_per_task_ty {
        Some(t) => seq![spec_priv_struct("PRIV_TASK_METHODS"@, t@, false)],
        None => seq![],
    };
    if count_funcs_in(all_funcs(v), FuncFilter::UsesSharedPerVcl) > 0 {
        a.push(spec_priv_struct("PRIV_VCL_METHODS"@, spec_per_vcl_ty(v.shared_types), true))
    } else {
        a
    }
}

pub open spec fn bodies(fs: Seq<FuncProcessor>) -> Seq<Seq<char>> {
    fs.map_values(|f: FuncProcessor| f.wrapper_function_body@)
}

pub open spec fn export_decls(fs: Seq<FuncProcessor>) -> Seq<Seq<char>> {
    fs.map_values(|f: FuncProcessor| f.export_decl@)
}

pub open spec fn export_inits(fs: Seq<FuncProcessor>) -> Seq<Seq<char>> {
    fs.map_values(|f: FuncProcessor| f.export_init@)
}

/// The generated module, with `json_spec` as the JSON description.
pub open spec fn spec_render(g: Generator, v: VmodInfo, json_spec: Seq<char>) -> Seq<char> {
    let m = g.names.spec_module();
    let all = all_procs(g);
    MOD_HEAD@ + FFI_ITEMS@ + MOD_USES@ + spec_each(spec_priv_structs(v), " "@) + spec_each(bodies(all), " "@)
        + EXPORTS_HEAD@ + spec_each(export_decls(all), ", "@) + EXPORTS_INIT@ + spec_each(export_inits(all), ", "@)
        + DATA_HEAD@ + ("Vmod_"@ + m + "_Data"@) + DATA_INIT@ + spec_cstr_lit(g.file_id@) + ".as_ptr(), name: "@
        + spec_cstr_lit(m) + ".as_ptr(), func_name: "@ + spec_cstr_lit(func_struct_of_module(m))
        + DATA_TAIL@ + spec_cstr_lit(json_spec) + "; }"@
}

/// The texts the generated module needs as C strings have no NUL.
pub open spec fn render_ok(v: VmodInfo, json_spec: Seq<char>) -> bool {
    &&& first_nul(v.ident@) is None
    &&& first_nul(json_spec) is None
    &&& (v.shared_types.shared_per_task_ty matches Some(t) ==> first_nul(t@) is None)
    &&& first_nul(spec_per_vcl_ty(v.shared_types)) is None
}

/// The static methods that clean up the object of type `ty_name` that a `vmod_priv` holds.
pub fn gen_priv_struct(name: &str, ty_name: &str, is_vcl_state: bool) -> (r: String)
    requires
        first_nul(ty_name@) is None,
    ensures
        r@ == spec_priv_struct(name@, ty_name@, is_vcl_state),
{
    let mut out = cat("static ", name);
    out = cat(out.as_str(), ": vmod_priv_methods = vmod_priv_methods { magic: VMOD_PRIV_METHODS_MAGIC, type_: ");
    out = cat(out.as_str(), cstr_lit(ty_name).as_str());
    out = cat(out.as_str(), ".as_ptr(), fini: Some(vmod_priv::");
    out = cat(out.as_str(), if is_vcl_state { "on_fini_per_vcl" } else { "on_fini" });
    out = cat(out.as_str(), "::<");
    out = cat(out.as_str(), ty_name);
    out = cat(out.as_str(), ">), };");
    proof {
        assert(out@ =~= spec_priv_struct(name@, ty_name@, is_vcl_state));
    }
    out
}

fn push_clone(v: &mut Vec<String>, s: &String)
    ensures
        texts(final(v)@) == texts(old(v)@).push(s@),
{
    v.push(s.clone());
    assert(texts(final(v)@) =~= texts(old(v)@).push(s@));
}

proof fn lemma_first_nul_concat(a: Seq<char>, b: Seq<char>)
    requires
        first_nul(a) is None,
        first_nul(b) is None,
    ensures
        first_nul(a + b) is None,
    decreases b.len(),
{
    if b.len() == 0 {
        assert(a + b =~= a);
    } else {
        lemma_first_nul_concat(a, b.drop_last());
        assert((a + b).drop_last() =~= a + b.drop_last());
        assert(first_nul(b.drop_last()) is None);
    }
}

proof fn lemma_func_struct_no_nul(m: Seq<char>)
    requires
        first_nul(m) is None,
    ensures
        first_nul(func_struct_of_module(m)) is None,
{
    reveal_strlit("Vmod_vmod_");
    reveal_strlit("_Func");
    let a = "Vmod_vmod_"@;
    let b = "_Func"@;
    assert(first_nul(a) is None) by {
        reveal_with_fuel(first_nul, 11);
    }
    assert(first_nul(b) is None) by {
        reveal_with_fuel(first_nul, 6);
    }
    lemma_first_nul_concat(a, m);
    lemma_first_nul_concat(a + m, b);
}

impl Generator {
    /// The wrappers, the export fields and their initializers of all the functions, in order.
    fn proc_texts(&self) -> (r: (Vec<String>, Vec<String>, Vec<String>))
        ensures
            texts(r.0@) == bodies(all_procs(*self)),
            texts(r.1@) == export_decls(all_procs(*self)),
            texts(r.2@) == export_inits(all_procs(*self)),
    {
        let mut b: Vec<String> = Vec::new();
        let mut d: Vec<String> = Vec::new();
        let mut n: Vec<String> = Vec::new();
        let mut j: usize = 0;
        while j < self.functions.len()
            invariant
                j <= self.functions@.len(),
                texts(b@) == bodies(self.functions@.take(j as int)),
                texts(d@) == export_decls(self.functions@.take(j as int)),
                texts(n@) == export_inits(self.functions@.take(j as int)),
            decreases self.functions.len() - j,
        {
            let f = &self.functions[j];
            let ghost t0 = self.functions@.take(j as int);
            push_clone(&mut b, &f.wrapper_function_body);
            push_clone(&mut d, &f.export_decl);
            push_clone(&mut n, &f.export_init);
            proof {
                let t1 = self.functions@.take(j + 1);
                assert(t1 =~= t0.push(*f));
                assert(bodies(t1) =~= bodies(t0).push(f.wrapper_function_body@));
                assert(export_decls(t1) =~= export_decls(t0).push(f.export_decl@));
                assert(export_inits(t1) =~= export_inits(t0).push(f.export_init@));
            }
            j = j + 1;
        }
        assert(self.functions@.take(self.functions@.len() as int) =~= self.functions@);
        let mut k: usize = 0;
        while k < self.objects.len()
            invariant
                k <= self.objects@.len(),
                texts(b@) == bodies(self.functions@ + objs_procs(self.objects@.take(k as int))),
                texts(d@) == export_decls(self.functions@ + objs_procs(self.objects@.take(k as int))),
                texts(n@) == export_inits(self.functions@ + objs_procs(self.objects@.take(k as int))),
            decreases self.objects.len() - k,
        {
            let o = &self.objects[k];
            let ghost pre = self.functions@ + objs_procs(self.objects@.take(k as int));
            proof {
                assert(self.objects@.take(k + 1).drop_last() =~= self.objects@.take(k as int));
                assert(pre + o.funcs@ =~= self.functions@ + objs_procs(self.objects@.take(k + 1)));
            }
            let mut m: usize = 0;
            while m < o.funcs.len()
                invariant
                    m <= o.funcs@.len(),
                    texts(b@) == bodies(pre + o.funcs@.take(m as int)),
                    texts(d@) == export_decls(pre + o.funcs@.take(m as int)),
                    texts(n@) == export_inits(pre + o.funcs@.take(m as int)),
                decreases o.funcs.len() - m,
            {
                let f = &o.funcs[m];
                let ghost t0 = pre + o.funcs@.take(m as int);
                push_clone(&mut b, &f.wrapper_function_body);
                push_clone(&mut d, &f.export_decl);
                push_clone(&mut n, &f.export_init);
                proof {
                    let t1 = pre + o.funcs@.take(m + 1);
                    assert(t1 =~= t0.push(*f));
                    assert(bodies(t1) =~= bodies(t0).push(f.wrapper_function_body@));
                    assert(export_decls(t1) =~= export_decls(t0).push(f.export_decl@));
                    assert(export_inits(t1) =~= export_inits(t0).push(f.export_init@));
                }
                m = m + 1;
            }
            assert(o.funcs@.take(o.funcs@.len() as int) =~= o.funcs@);
            k = k + 1;
        }
        assert(self.objects@.take(self.objects@.len() as int) =~= self.objects@);
        (b, d, n)
    }

    /// The generated module, as Rust source text, with `json_spec` (the framed JSON
    /// description) as its JSON.
    pub fn render_generated_mod(&self, vmod: &VmodInfo, json_spec: &str) -> (r: String)
        requires
            generator_ok(*self, *vmod),
            render_ok(*vmod, json_spec@),
        ensures
            r@ == spec_render(*self, *vmod, json_spec@),
    {
        let mut privs: Vec<String> = Vec::new();
        match &vmod.shared_types.shared_per_task_ty {
            Some(t) => {
                privs.push(gen_priv_struct("PRIV_TASK_METHODS", t.as_str(), false));
            },
            None => {},
        }
        if vmod.use_shared_per_vcl() {
            let ghost before = texts(privs@);
            privs.push(gen_priv_struct("PRIV_VCL_METHODS", vmod.shared_types.get_per_vcl_ty(), true));
            assert(texts(privs@) =~= before.push(spec_priv_struct("PRIV_VCL_METHODS"@, spec_per_vcl_ty(vmod.shared_types), true)));
        }
        assert(texts(privs@) =~= spec_priv_structs(*vmod));
        let (b, d, n) = self.proc_texts();
        let m = self.names.mod_name();
        let fsn = self.names.func_struct_name();
        let mut out = cat(MOD_HEAD, FFI_ITEMS);
        out = cat(out.as_str(), MOD_USES);
        out = cat(out.as_str(), each(&privs, " ").as_str());
        out = cat(out.as_str(), each(&b, " ").as_str());
        out = cat(out.as_str(), EXPORTS_HEAD);
        out = cat(out.as_str(), each(&d, ", ").as_str());
        out = cat(out.as_str(), EXPORTS_INIT);
        out = cat(out.as_str(), each(&n, ", ").as_str());
        out = cat(out.as_str(), DATA_HEAD);
        out = cat(out.as_str(), self.names.data_struct_name().as_str());
        out = cat(out.as_str(), DATA_INIT);
        out = cat(out.as_str(), cstr_lit(self.file_id.as_str()).as_str());
        out = cat(out.as_str(), ".as_ptr(), name: ");
        out = cat(out.as_str(), cstr_lit(m).as_str());
        out = cat(out.as_str(), ".as_ptr(), func_name: ");
        proof {
            assert(fsn@ == func_struct_of_module(vmod.ident@));
            lemma_func_struct_no_nul(vmod.ident@);
        }
        out = cat(out.as_str(), cstr_lit(fsn.as_str()).as_str());
        out = cat(out.as_str(), DATA_TAIL);
        out = cat(out.as_str(), cstr_lit(json_spec).as_str());
        out = cat(out.as_str(), "; }");
        proof {
            assert(out@ == spec_render(*self, *vmod, json_spec@));
        }
        out
    }
}

impl Generator {
    /// The generated module for the pretty text `pretty` of the JSON description: the text is
    /// framed, and the names that become C strings are checked; `None` when one of them holds a
    /// NUL character.
    pub fn render_with_json(&self, vmod: &VmodInfo, pretty: &str) -> (r: Option<String>)
        requires
            generator_ok(*self, *vmod),
        ensures
            match r {
                Some(t) => render_ok(*vmod, spec_json_spec(pretty@))
                    && t@ == spec_render(*self, *vmod, spec_json_spec(pretty@)),
                None => !render_ok(*vmod, spec_json_spec(pretty@)),
            },
    {
        let spec = frame_json_spec(pretty);
        let task_nul = match &vmod.shared_types.shared_per_task_ty {
            Some(t) => crate::ctx::has_nul(t.as_str()),
            None => false,
        };
        if crate::ctx::has_nul(vmod.ident.as_str()) || crate::ctx::has_nul(spec.as_str()) || task_nul
            || crate::ctx::has_nul(vmod.shared_types.get_per_vcl_ty())
        {
            None
        } else {
            Some(self.render_generated_mod(vmod, spec.as_str()))
        }
    }
}

impl Generator {
    /// The generated module of the generator's VMOD, its JSON description being the pretty text
    /// of [`Generator::gen_json`] for the ABI version `abi`; `None` when a name that becomes a C
    /// string holds a NUL character.
    pub fn render_text(&self, vmod: &VmodInfo, abi: &str) -> (r: Option<String>)
        requires
            generator_ok(*self, *vmod),
        ensures
            ({
                let spec = spec_json_spec(spec_json_pretty(spec_gen_json(*self, abi@)));
                match r {
                    Some(t) => render_ok(*vmod, spec) && t@ == spec_render(*self, *vmod, spec),
                    None => !render_ok(*vmod, spec),
                }
            }),
    {
        let j = self.gen_json(abi);
        let pretty = json_pretty(&j);
        self.render_with_json(vmod, pretty.as_str())
    }

    /// The generated module of the VMOD `vmod`, for the ABI version `abi`: the generator of the
    /// VMOD renders it with the pretty text of its JSON description.
    pub fn render(vmod: &VmodInfo, abi: &str) -> (r: Option<String>)
        requires
            vmod_wf(*vmod),
        ensures
            exists|g: Generator| #[trigger] generator_ok(g, *vmod) && ({
                let spec = spec_json_spec(spec_json_pretty(spec_gen_json(g, abi@)));
                match r {
                    Some(t) => render_ok(*vmod, spec) && t@ == spec_render(g, *vmod, spec),
                    None => !render_ok(*vmod, spec),
                }
            }),
    {
        let g = Generator::new(vmod);
        let r = g.render_text(vmod, abi);
        assert(generator_ok(g, *vmod));
        r
    }
}

/// The cleanup static of per-task state frees the object with `vmod_priv::on_fini`, that of
/// per-VCL state with `vmod_priv::on_fini_per_vcl`, each for the object's type.
pub proof fn lemma_priv_struct_fini(name: Seq<char>, ty_name: Seq<char>)
    ensures
        ({
            let task = spec_priv_struct(name, ty_name, false);
            let vcl = spec_priv_struct(name, ty_name, true);
            let task_tail = "fini: Some(vmod_priv::on_fini::<"@ + ty_name + ">), };"@;
            let vcl_tail = "fini: Some(vmod_priv::on_fini_per_vcl::<"@ + ty_name + ">), };"@;
            &&& task.len() >= task_tail.len() && task.skip(task.len() - task_tail.len()) == task_tail
            &&& vcl.len() >= vcl_tail.len() && vcl.skip(vcl.len() - vcl_tail.len()) == vcl_tail
        }),
{
    reveal_strlit(".as_ptr(), fini: Some(vmod_priv::");
    reveal_strlit("fini: Some(vmod_priv::on_fini::<");
    reveal_strlit("fini: Some(vmod_priv::on_fini_per_vcl::<");
    reveal_strlit("on_fini");
    reveal_strlit("on_fini_per_vcl");
    reveal_strlit("::<");
    reveal_strlit(">), };");
    let head = "static "@ + name + ": vmod_priv_methods = vmod_priv_methods { magic: VMOD_PRIV_METHODS_MAGIC, type_: "@
        + spec_cstr_lit(ty_name);
    let task = spec_priv_struct(name, ty_name, false);
    let vcl = spec_priv_struct(name, ty_name, true);
    let task_tail = "fini: Some(vmod_priv::on_fini::<"@ + ty_name + ">), };"@;
    let vcl_tail = "fini: Some(vmod_priv::on_fini_per_vcl::<"@ + ty_name + ">), };"@;
    assert(task =~= head + ".as_ptr(), "@ + task_tail) by {
        reveal_strlit(".as_ptr(), ");
    }
    assert(vcl =~= head + ".as_ptr(), "@ + vcl_tail) by {
        reveal_strlit(".as_ptr(), ");
    }
    assert(task.skip(task.len() - task_tail.len()) =~= task_tail);
    assert(vcl.skip(vcl.len() - vcl_tail.len()) =~= vcl_tail);
}

} // verus!
