//! Doc comments: reading the `#[doc = "..."]` attributes into one block of text.
use vstd::prelude::*;
use crate::types::{Attr, AttrMeta, attr_is, spec_find_attr, spec_remove_attr, lemma_find_attr, remove_attr};
use crate::text::{chars_of, string_of, str_eq};

verus! {

/// Unicode `White_Space`, as `char::is_whitespace` defines it.
pub open spec fn is_ws(c: char) -> bool {
    ||| c == '\t' || c == '\n' || c == '\x0B' || c == '\x0C' || c == '\r' || c == ' '
    ||| c == '\u{85}' || c == '\u{A0}' || c == '\u{1680}'
    ||| ('\u{2000}' <= c && c <= '\u{200A}')
    ||| c == '\u{2028}' || c == '\u{2029}' || c == '\u{202F}' || c == '\u{205F}' || c == '\u{3000}'
}

pub fn is_whitespace(c: char) -> (r: bool)
    ensures
        r == is_ws(c),
{
    c == '\t' || c == '\n' || c == '\x0B' || c == '\x0C' || c == '\r' || c == ' ' || c == '\u{85}'
        || c == '\u{A0}' || c == '\u{1680}' || ('\u{2000}' <= c && c <= '\u{200A}') || c == '\u{2028}'
        || c == '\u{2029}' || c == '\u{202F}' || c == '\u{205F}' || c == '\u{3000}'
}

/// `s` without its leading white space.
pub open spec fn trim_start(s: Seq<char>) -> Seq<char>
    decreases s.len(),
{
    if s.len() > 0 && is_ws(s[0]) {
        trim_start(s.skip(1))
    } else {
        s
    }
}

/// `s` without its trailing white space.
pub open spec fn trim_end(s: Seq<char>) -> Seq<char>
    decreases s.len(),
{
    if s.len() > 0 && is_ws(s.last()) {
        trim_end(s.drop_last())
    } else {
        s
    }
}

/// `s` without leading and trailing white space.
pub open spec fn trim(s: Seq<char>) -> Seq<char> {
    trim_end(trim_start(s))
}

/// The lines of `s`: the pieces between the `'\n'` characters (one piece when there is none).
pub open spec fn split_lines(s: Seq<char>) -> Seq<Seq<char>>
    decreases s.len(),
{
    if s.len() == 0 {
        seq![Seq::empty()]
    } else {
        let prev = split_lines(s.drop_last());
        if s.last() == '\n' {
            prev.push(Seq::empty())
        } else {
            prev.update(prev.len() - 1, prev.last().push(s.last()))
        }
    }
}

/// The lines joined, with `'\n'` between two lines.
pub open spec fn join_lines(lines: Seq<Seq<char>>) -> Seq<char>
    decreases lines.len(),
{
    if lines.len() == 0 {
        Seq::empty()
    } else if lines.len() == 1 {
        lines[0]
    } else {
        join_lines(lines.drop_last()) + seq!['\n'] + lines.last()
    }
}

pub proof fn lemma_split_lines_nonempty(s: Seq<char>)
    ensures
        split_lines(s).len() >= 1,
    decreases s.len(),
{
    if s.len() > 0 {
        lemma_split_lines_nonempty(s.drop_last());
    }
}

/// Splitting into lines loses nothing: joining the lines gives the text back, and no line holds
/// a `'\n'`.
pub proof fn lemma_split_join(s: Seq<char>)
    ensures
        join_lines(split_lines(s)) == s,
        forall|i: int, j: int| 0 <= i < split_lines(s).len() && 0 <= j < split_lines(s)[i].len()
            ==> split_lines(s)[i][j] != '\n',
    decreases s.len(),
{
    if s.len() > 0 {
        let p = s.drop_last();
        lemma_split_join(p);
        lemma_split_lines_nonempty(p);
        let prev = split_lines(p);
        if s.last() == '\n' {
            assert(split_lines(s).drop_last() =~= prev);
            if prev.len() == 1 {
                assert(join_lines(split_lines(s)) =~= s);
            } else {
                assert(join_lines(split_lines(s)) =~= s);
            }
        } else {
            let q = split_lines(s);
            assert(q.drop_last() =~= prev.drop_last());
            if prev.len() == 1 {
                assert(q.len() == 1);
                assert(q[0] == prev[0].push(s.last()));
                assert(s =~= p.push(s.last()));
                assert(join_lines(q) == q[0]);
            } else {
                assert(q.last() == prev.last().push(s.last()));
                assert(join_lines(prev) == join_lines(prev.drop_last()) + seq!['\n'] + prev.last());
                assert(s =~= p.push(s.last()));
                assert(join_lines(q) =~= join_lines(prev.drop_last()) + seq!['\n'] + prev.last().push(s.last()));
                assert(join_lines(q) =~= s);
            }
        }
    } else {
        assert(join_lines(split_lines(s)) =~= s);
    }
}

/// The doc strings of the attributes: the string values of the `doc` attributes, in order.
pub open spec fn doc_values(attrs: Seq<Attr>) -> Seq<Seq<char>>
    decreases attrs.len(),
{
    if attrs.len() == 0 {
        seq![]
    } else {
        let prev = doc_values(attrs.drop_last());
        let a = attrs.last();
        if attr_is(a, "doc"@) {
            match a.meta {
                AttrMeta::NameValue { str_value: Some(v) } => prev.push(v@),
                _ => prev,
            }
        } else {
            prev
        }
    }
}

/// The trimmed lines of all the doc strings, in order.
pub open spec fn trimmed_lines(docs: Seq<Seq<char>>) -> Seq<Seq<char>>
    decreases docs.len(),
{
    if docs.len() == 0 {
        seq![]
    } else {
        trimmed_lines(docs.drop_last()) + split_lines(docs.last()).map_values(|l: Seq<char>| trim(l))
    }
}

/// `lines` without its leading empty lines.
pub open spec fn skip_empty_front(lines: Seq<Seq<char>>) -> Seq<Seq<char>>
    decreases lines.len(),
{
    if lines.len() > 0 && lines[0].len() == 0 {
        skip_empty_front(lines.skip(1))
    } else {
        lines
    }
}

/// `lines` without its last line when that one is empty.
pub open spec fn pop_empty_last(lines: Seq<Seq<char>>) -> Seq<Seq<char>> {
    if lines.len() > 0 && lines.last().len() == 0 {
        lines.drop_last()
    } else {
        lines
    }
}

/// Every line starts with `'*'`.
pub open spec fn all_starred(lines: Seq<Seq<char>>) -> bool {
    forall|i: int| 0 <= i < lines.len() ==> #[trigger] lines[i].len() > 0 && lines[i][0] == '*'
}

/// The text of a doc comment: the trimmed lines of all `doc` strings, without leading empty
/// lines nor one trailing empty line; when every line starts with `*` (a `/** */` comment), the
/// `*` is taken off each line, which is trimmed again, and leading empty lines are dropped again.
pub open spec fn spec_doc_str(attrs: Seq<Attr>) -> Seq<char> {
    let lines = pop_empty_last(skip_empty_front(trimmed_lines(doc_values(attrs))));
    if all_starred(lines) {
        join_lines(skip_empty_front(lines.map_values(|l: Seq<char>| trim(l.skip(1)))))
    } else {
        join_lines(lines)
    }
}

/// Trim white space at both ends of `v`.
fn trim_chars(v: &Vec<char>, from: usize) -> (r: Vec<char>)
    requires
        from <= v.len(),
    ensures
        r@ == trim(v@.skip(from as int)),
{
    let mut b: usize = from;
    while b < v.len() && is_whitespace(v[b])
        invariant
            from <= b <= v.len(),
            trim_start(v@.skip(from as int)) == trim_start(v@.skip(b as int)),
        decreases v.len() - b,
    {
        assert(v@.skip(b as int).skip(1) =~= v@.skip(b + 1));
        b = b + 1;
    }
    let mut e: usize = v.len();
    assert(v@.skip(b as int) =~= v@.subrange(b as int, e as int));
    while e > b && is_whitespace(v[e - 1])
        invariant
            b <= e <= v.len(),
            trim_end(v@.skip(b as int)) == trim_end(v@.subrange(b as int, e as int)),
        decreases e - b,
    {
        assert(v@.subrange(b as int, e as int).drop_last() =~= v@.subrange(b as int, e - 1));
        e = e - 1;
    }
    let mut r: Vec<char> = Vec::new();
    let mut i: usize = b;
    while i < e
        invariant
            b <= i <= e <= v.len(),
            r@ == v@.subrange(b as int, i as int),
        decreases e - i,
    {
        r.push(v[i]);
        i = i + 1;
    }
    proof {
        let t = v@.subrange(b as int, e as int);
        if t.len() > 0 {
            assert(t[0] == v@[b as int]);
            assert(t.last() == v@[e - 1]);
        }
        if b < v.len() {
            assert(v@.skip(b as int)[0] == v@[b as int]);
        }
    }
    r
}

/// Split `v` into lines and append their trimmed forms to `out`.
fn push_trimmed_lines(v: &Vec<char>, out: &mut Vec<Vec<char>>)
    ensures
        deep_lines(final(out)@) == deep_lines(old(out)@) + split_lines(v@).map_values(|l: Seq<char>| trim(l)),
{
    let mut lines: Vec<Vec<char>> = Vec::new();
    let mut cur: Vec<char> = Vec::new();
    let mut i: usize = 0;
    while i < v.len()
        invariant
            i <= v.len(),
            deep_lines(lines@).push(cur@) == split_lines(v@.take(i as int)),
        decreases v.len() - i,
    {
        proof {
            assert(v@.take(i + 1).drop_last() =~= v@.take(i as int));
            lemma_split_lines_nonempty(v@.take(i as int));
        }
        if v[i] == '\n' {
            let done = cur;
            cur = Vec::new();
            lines.push(done);
            proof {
                assert(deep_lines(lines@) =~= deep_lines(old_lines(lines@)).push(done@));
            }
        } else {
            cur.push(v[i]);
        }
        i = i + 1;
        proof {
            assert(deep_lines(lines@).push(cur@) =~= split_lines(v@.take(i as int)));
        }
    }
    lines.push(cur);
    assert(v@.take(v.len() as int) =~= v@);
    let ghost all = split_lines(v@);
    let mut k: usize = 0;
    let ghost start = deep_lines(out@);
    while k < lines.len()
        invariant
            k <= lines.len(),
            deep_lines(lines@) == all,
            deep_lines(out@) == start + all.take(k as int).map_values(|l: Seq<char>| trim(l)),
        decreases lines.len() - k,
    {
        let t = trim_chars(&lines[k], 0);
        assert(lines@[k as int]@.skip(0) =~= lines@[k as int]@);
        assert(deep_lines(lines@)[k as int] == lines@[k as int]@);
        let ghost before = deep_lines(out@);
        out.push(t);
        k = k + 1;
        proof {
            assert(deep_lines(out@) =~= before.push(t@));
            assert(all.take(k as int) =~= all.take(k - 1).push(all[k - 1]));
            assert(deep_lines(out@) =~= start + all.take(k as int).map_values(|l: Seq<char>| trim(l)));
        }
    }
    assert(all.take(lines.len() as int) =~= all);
}

/// The character sequences of a list of lines.
pub open spec fn deep_lines(v: Seq<Vec<char>>) -> Seq<Seq<char>> {
    v.map_values(|l: Vec<char>| l@)
}

spec fn old_lines(v: Seq<Vec<char>>) -> Seq<Vec<char>> {
    v.drop_last()
}

/// `lines` without its leading empty lines.
fn skip_empty_lines(lines: Vec<Vec<char>>) -> (r: Vec<Vec<char>>)
    ensures
        deep_lines(r@) == skip_empty_front(deep_lines(lines@)),
{
    let mut b: usize = 0;
    assert(deep_lines(lines@).skip(0) =~= deep_lines(lines@));
    while b < lines.len() && lines[b].len() == 0
        invariant
            b <= lines.len(),
            skip_empty_front(deep_lines(lines@)) == skip_empty_front(deep_lines(lines@).skip(b as int)),
        decreases lines.len() - b,
    {
        assert(deep_lines(lines@).skip(b as int).skip(1) =~= deep_lines(lines@).skip(b + 1));
        assert(deep_lines(lines@).skip(b as int)[0] == lines@[b as int]@);
        b = b + 1;
    }
    let ghost all = deep_lines(lines@);
    let mut lines = lines;
    let r = lines.split_off(b);
    assert(deep_lines(r@) =~= all.skip(b as int));
    proof {
        if b < all.len() {
            assert(all.skip(b as int)[0] == all[b as int]);
        }
    }
    r
}

/// Parse the doc string from the `#[doc]` attributes, and return it as a string.
pub fn parse_doc_str(attrs: &Vec<Attr>) -> (r: String)
    ensures
        r@ == spec_doc_str(attrs@),
{
    let mut lines: Vec<Vec<char>> = Vec::new();
    let mut i: usize = 0;
    while i < attrs.len()
        invariant
            i <= attrs.len(),
            deep_lines(lines@) == trimmed_lines(doc_values(attrs@.take(i as int))),
        decreases attrs.len() - i,
    {
        proof {
            assert(attrs@.take(i + 1).drop_last() =~= attrs@.take(i as int));
        }
        let a = &attrs[i];
        assert(attrs@.take(i + 1).last() == attrs@[i as int]);
        let is_doc = match &a.ident {
            Some(n) => str_eq(n.as_str(), "doc"),
            None => false,
        };
        if is_doc {
            match &a.meta {
                AttrMeta::NameValue { str_value: Some(v) } => {
                    let cs = chars_of(v.as_str());
                    push_trimmed_lines(&cs, &mut lines);
                    assert(doc_values(attrs@.take(i + 1)) =~= doc_values(attrs@.take(i as int)).push(v@));
                    assert(doc_values(attrs@.take(i as int)).push(v@).drop_last() =~= doc_values(attrs@.take(i as int)));
                },
                _ => {
                    assert(doc_values(attrs@.take(i + 1)) =~= doc_values(attrs@.take(i as int)));
                },
            }
        } else {
            assert(doc_values(attrs@.take(i + 1)) =~= doc_values(attrs@.take(i as int)));
        }
        i = i + 1;
    }
    assert(attrs@.take(attrs.len() as int) =~= attrs@);
    let mut lines = skip_empty_lines(lines);
    if lines.len() > 0 && lines[lines.len() - 1].len() == 0 {
        lines.pop();
        assert(deep_lines(lines@) =~= pop_empty_last(skip_empty_front(trimmed_lines(doc_values(attrs@)))));
    } else {
        assert(deep_lines(lines@) =~= pop_empty_last(skip_empty_front(trimmed_lines(doc_values(attrs@)))));
    }
    let ghost ls = deep_lines(lines@);
    let mut starred = true;
    let mut k: usize = 0;
    while k < lines.len()
        invariant
            k <= lines.len(),
            ls == deep_lines(lines@),
            starred == forall|j: int| 0 <= j < k ==> #[trigger] ls[j].len() > 0 && ls[j][0] == '*',
        decreases lines.len() - k,
    {
        assert(ls[k as int] == lines@[k as int]@);
        if !(lines[k].len() > 0 && lines[k][0] == '*') {
            starred = false;
        }
        k = k + 1;
    }
    let out = if starred {
        let mut stripped: Vec<Vec<char>> = Vec::new();
        let mut k: usize = 0;
        while k < lines.len()
            invariant
                k <= lines.len(),
                ls == deep_lines(lines@),
                all_starred(ls),
                deep_lines(stripped@) =~= ls.take(k as int).map_values(|l: Seq<char>| trim(l.skip(1))),
            decreases lines.len() - k,
        {
            assert(ls[k as int] == lines@[k as int]@);
            let t = trim_chars(&lines[k], 1);
            let ghost before = deep_lines(stripped@);
            stripped.push(t);
            k = k + 1;
            assert(deep_lines(stripped@) =~= before.push(t@));
            assert(ls.take(k as int) =~= ls.take(k - 1).push(ls[k - 1]));
        }
        assert(ls.take(lines.len() as int) =~= ls);
        skip_empty_lines(stripped)
    } else {
        lines
    };
    let joined = join_chars(&out);
    string_of(&joined)
}

/// The lines joined with `'\n'`.
fn join_chars(lines: &Vec<Vec<char>>) -> (r: Vec<char>)
    ensures
        r@ == join_lines(deep_lines(lines@)),
{
    let mut r: Vec<char> = Vec::new();
    let mut k: usize = 0;
    while k < lines.len()
        invariant
            k <= lines.len(),
            r@ == join_lines(deep_lines(lines@).take(k as int)),
        decreases lines.len() - k,
    {
        let ghost before = r@;
        if k > 0 {
            r.push('\n');
        }
        let mut m: usize = 0;
        let ghost mid = r@;
        while m < lines[k].len()
            invariant
                k < lines.len(),
                m <= lines@[k as int].len(),
                r@ == mid + lines@[k as int]@.take(m as int),
            decreases lines@[k as int].len() - m,
        {
            r.push(lines[k][m]);
            m = m + 1;
            assert(r@ =~= mid + lines@[k as int]@.take(m as int));
        }
        proof {
            let d = deep_lines(lines@);
            assert(lines@[k as int]@.take(m as int) =~= d[k as int]);
            assert(d.take(k + 1).drop_last() =~= d.take(k as int));
            if k == 0 {
                assert(r@ =~= join_lines(d.take(1)));
            } else {
                assert(r@ =~= join_lines(d.take(k + 1)));
            }
        }
        k = k + 1;
    }
    assert(deep_lines(lines@).take(lines.len() as int) =~= deep_lines(lines@));
    r
}

/// The attributes left once every one named `name` is taken out, one after the other.
pub open spec fn spec_remove_all_attrs(attrs: Seq<Attr>, name: Seq<char>) -> Seq<Attr>
    decreases attrs.len(),
{
    match spec_find_attr(attrs, name) {
        Some(i) => if 0 <= i < attrs.len() {
            spec_remove_all_attrs(spec_remove_attr(attrs, name).0, name)
        } else {
            attrs
        },
        None => attrs,
    }
}

/// Parse the doc string from the `#[doc]` attributes, and remove them from the list of
/// attributes.
pub fn parse_and_rm_doc(attrs: &mut Vec<Attr>) -> (r: String)
    ensures
        r@ == spec_doc_str(old(attrs)@),
        final(attrs)@ == spec_remove_all_attrs(old(attrs)@, "doc"@),
{
    let docs = parse_doc_str(attrs);
    let ghost start = attrs@;
    loop
        invariant
            spec_remove_all_attrs(start, "doc"@) == spec_remove_all_attrs(attrs@, "doc"@),
        ensures
            spec_remove_all_attrs(start, "doc"@) == attrs@,
        decreases attrs@.len(),
    {
        proof {
            lemma_find_attr(attrs@, "doc"@);
        }
        let ghost before = attrs@;
        match remove_attr(attrs, "doc") {
            Some(_) => {},
            None => {
                break;
            },
        }
    }
    docs
}

} // verus!
