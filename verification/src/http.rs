//! HTTP headers of an object: the table of header lines Varnish keeps, with the first line's
//! fields in its first slots and one `name: value` line per header after them.
use vstd::prelude::*;
use crate::text::{cat, chars_of, string_of};
use crate::ws::{WS, WsView, alloc_size_ok, spec_alloc, spec_write};
use vstd::string::StringSliceAdditionalSpecFns;
use vstd::utf8::encode_utf8;

verus! {

broadcast use vstd::string::group_string_axioms;

/// Slot of the request method.
pub const HDR_METHOD: u16 = 0;
/// Slot of the request URL.
pub const HDR_URL: u16 = 1;
/// Slot of the protocol.
pub const HDR_PROTO: u16 = 2;
/// Slot of the response status.
pub const HDR_STATUS: u16 = 3;
/// Slot of the response reason.
pub const HDR_REASON: u16 = 4;
/// First slot of the header lines.
pub const HDR_FIRST: u16 = 5;

/// The ASCII characters that `char::is_whitespace` accepts: tab, line feed, vertical tab, form
/// feed, carriage return and space.
pub open spec fn is_ascii_ws(c: char) -> bool {
    c == ' ' || ('\t' <= c && c <= '\r')
}

/// A colon (`colon`), or a character that is not whitespace (otherwise).
pub open spec fn sought(colon: bool, c: char) -> bool {
    if colon { c == ':' } else { !is_ascii_ws(c) }
}

/// Index of the first character of `s` that is sought.
pub open spec fn first_where(s: Seq<char>, colon: bool) -> Option<int>
    decreases s.len(),
{
    if s.len() == 0 {
        None
    } else {
        match first_where(s.drop_last(), colon) {
            Some(i) => Some(i),
            None => if sought(colon, s.last()) { Some(s.len() - 1) } else { None },
        }
    }
}

/// A header line has a colon.
pub open spec fn has_colon(t: Seq<char>) -> bool {
    first_where(t, true) is Some
}

/// The name and value of a header line: the name runs to the first colon; the value is what
/// follows it, less all the leading whitespace (empty when nothing else follows).
pub open spec fn spec_header_parse(t: Seq<char>) -> (Seq<char>, Seq<char>) {
    let c = first_where(t, true)->0;
    let after = t.skip(c + 1);
    (t.take(c), match first_where(after, false) {
        Some(j) => after.skip(j),
        None => Seq::empty(),
    })
}

proof fn lemma_first_where_prefix(s: Seq<char>, p: bool, i: int)
    requires
        0 <= i < s.len(),
        sought(p, s[i]),
        first_where(s.take(i), p) is None,
    ensures
        first_where(s, p) == Some(i),
    decreases s.len(),
{
    if i < s.len() - 1 {
        assert(s.drop_last().take(i) =~= s.take(i));
        lemma_first_where_prefix(s.drop_last(), p, i);
    } else {
        assert(s.drop_last() =~= s.take(i));
    }
}

pub proof fn lemma_first_where(s: Seq<char>, p: bool)
    ensures
        match first_where(s, p) {
            Some(i) => 0 <= i < s.len() && sought(p, s[i]) && forall|j: int| 0 <= j < i ==> !sought(p, #[trigger] s[j]),
            None => forall|j: int| 0 <= j < s.len() ==> !sought(p, #[trigger] s[j]),
        },
    decreases s.len(),
{
    if s.len() > 0 {
        lemma_first_where(s.drop_last(), p);
        match first_where(s.drop_last(), p) {
            Some(i) => {
                assert forall|j: int| 0 <= j < i implies !sought(p, #[trigger] s[j]) by {
                    assert(s[j] == s.drop_last()[j]);
                }
            },
            None => {
                assert forall|j: int| 0 <= j < s.len() - 1 implies !sought(p, #[trigger] s[j]) by {
                    assert(s[j] == s.drop_last()[j]);
                }
            },
        }
    }
}

/// Index of the first character of `v` from `from` on that is a colon (`want_colon`) or that is
/// not whitespace (otherwise).
fn find_from(v: &Vec<char>, from: usize, want_colon: bool) -> (r: Option<usize>)
    requires
        from <= v@.len(),
    ensures
        match (r, first_where(v@.skip(from as int), want_colon)) {
            (Some(i), Some(j)) => i == from + j,
            (None, None) => true,
            _ => false,
        },
{
    let ghost p = want_colon;
    let ghost s = v@.skip(from as int);
    let mut i = from;
    while i < v.len()
        invariant
            from <= i <= v@.len(),
            s == v@.skip(from as int),
            p == want_colon,
            forall|j: int| 0 <= j < i - from ==> !sought(p, #[trigger] s[j]),
        decreases v.len() - i,
    {
        let c = v[i];
        let hit = if want_colon { c == ':' } else { !(c == ' ' || ('\t' <= c && c <= '\r')) };
        if hit {
            proof {
                assert(s[i - from] == c);
                lemma_first_where(s.take(i - from), p);
                assert forall|j: int| 0 <= j < s.take(i - from).len() implies !sought(p, #[trigger] s.take(i - from)[j]) by {
                    assert(s.take(i - from)[j] == s[j]);
                }
                lemma_first_where_prefix(s, p, i - from);
            }
            return Some(i);
        }
        i = i + 1;
    }
    proof {
        lemma_first_where(s, p);
    }
    None
}

/// The name and value of a header line.
fn header_parse(t: &str) -> (r: (String, String))
    requires
        has_colon(t@),
    ensures
        r.0@ == spec_header_parse(t@).0,
        r.1@ == spec_header_parse(t@).1,
{
    let v = chars_of(t);
    assert(v@.skip(0) =~= v@);
    proof {
        lemma_first_where(t@, true);
    }
    let c = match find_from(&v, 0, true) {
        Some(c) => c,
        None => {
            proof {
                assert(false);
            }
            0
        },
    };
    let mut name_chars: Vec<char> = Vec::new();
    let mut i: usize = 0;
    while i < c
        invariant
            i <= c < v@.len(),
            name_chars@ == v@.take(i as int),
        decreases c - i,
    {
        name_chars.push(v[i]);
        i = i + 1;
        assert(name_chars@ =~= v@.take(i as int));
    }
    let name = string_of(&name_chars);
    proof {
        lemma_first_where(v@.skip(c + 1), false);
        assert(v@.skip(c + 1) =~= t@.skip(c + 1));
    }
    let start = match find_from(&v, c + 1, false) {
        Some(j) => j,
        None => v.len(),
    };
    proof {
        let after = t@.skip(c + 1);
        assert(v@.skip(c + 1) =~= after);
        match first_where(after, false) {
            Some(j) => assert(after.skip(j) =~= v@.skip(start as int)),
            None => assert(v@.skip(start as int) =~= Seq::<char>::empty()),
        }
    }
    let mut value_chars: Vec<char> = Vec::new();
    let mut k = start;
    while k < v.len()
        invariant
            start <= k <= v@.len(),
            value_chars@ == v@.subrange(start as int, k as int),
        decreases v.len() - k,
    {
        value_chars.push(v[k]);
        k = k + 1;
        assert(value_chars@ =~= v@.subrange(start as int, k as int));
    }
    assert(v@.subrange(start as int, v@.len() as int) =~= v@.skip(start as int));
    let value = string_of(&value_chars);
    (name, value)
}


/// `c` with an ASCII capital made small.
pub open spec fn ascii_lower(c: u32) -> u32 {
    if 65 <= c <= 90 { (c + 32) as u32 } else { c }
}

/// Equality up to ASCII case.
pub open spec fn eq_ignore_ascii_case(a: Seq<char>, b: Seq<char>) -> bool {
    &&& a.len() == b.len()
    &&& forall|i: int| 0 <= i < a.len() ==> ascii_lower(#[trigger] a[i] as u32) == ascii_lower(b[i] as u32)
}

fn eq_ic(a: &str, b: &str) -> (r: bool)
    ensures
        r == eq_ignore_ascii_case(a@, b@),
{
    let x = chars_of(a);
    let y = chars_of(b);
    if x.len() != y.len() {
        return false;
    }
    let mut i: usize = 0;
    while i < x.len()
        invariant
            x@ == a@,
            y@ == b@,
            x@.len() == y@.len(),
            i <= x@.len(),
            forall|j: int| 0 <= j < i ==> ascii_lower(#[trigger] a@[j] as u32) == ascii_lower(b@[j] as u32),
        decreases x.len() - i,
    {
        let p = x[i] as u32;
        let q = y[i] as u32;
        let lp = if 65 <= p && p <= 90 { p + 32 } else { p };
        let lq = if 65 <= q && q <= 90 { q + 32 } else { q };
        if lp != lq {
            return false;
        }
        i = i + 1;
    }
    true
}

/// The line `t` is that of a header called `name`, up to ASCII case.
pub open spec fn line_named(t: Option<Seq<char>>, name: Seq<char>) -> bool {
    match t {
        Some(t) => eq_ignore_ascii_case(name, spec_header_parse(t).0),
        None => false,
    }
}

/// HTTP headers of an object: the slots of the header table, their flags, and how many are in
/// use; and the workspace the lines are stored in.
pub struct HTTP {
    hd: Vec<Option<String>>,
    hdf: Vec<u8>,
    nhd: u16,
    ws: WS,
}

/// The view of an [`HTTP`]: the text of each slot (none for an empty one), the flags, the number
/// of slots in use, and the workspace.
pub struct HttpView {
    pub hd: Seq<Option<Seq<char>>>,
    pub hdf: Seq<u8>,
    pub nhd: nat,
    pub ws: WsView,
}

pub open spec fn opt_text(o: Option<String>) -> Option<Seq<char>> {
    match o {
        Some(s) => Some(s@),
        None => None,
    }
}

impl View for HTTP {
    type V = HttpView;

    closed spec fn view(&self) -> HttpView {
        HttpView {
            hd: self.hd@.map_values(|o: Option<String>| opt_text(o)),
            hdf: self.hdf@,
            nhd: self.nhd as nat,
            ws: self.ws@,
        }
    }
}

impl HttpView {
    /// The table is well formed: the first line's fields come before the slots in use, which fit
    /// in the table, and the workspace is sound.
    pub open spec fn wf(self) -> bool {
        &&& HDR_FIRST <= self.nhd <= self.hd.len()
        &&& self.hd.len() == self.hdf.len() <= u16::MAX
        &&& self.ws.wf()
    }

    /// Every header line in use has a colon.
    pub open spec fn lines_ok(self) -> bool {
        forall|i: int| HDR_FIRST <= i < self.nhd && (#[trigger] self.hd[i]) is Some ==> has_colon(self.hd[i]->0)
    }

    /// Every header slot in use holds a line with a colon.
    pub open spec fn lines_full(self) -> bool {
        forall|i: int| HDR_FIRST <= i < self.nhd ==> (#[trigger] self.hd[i]) is Some && has_colon(self.hd[i]->0)
    }
}

/// The value of the first header in slots `from` to `nhd` called `name`.
pub open spec fn spec_find_header(v: HttpView, name: Seq<char>, from: int) -> Option<Seq<char>>
    decreases v.nhd - from,
{
    if from >= v.nhd {
        None
    } else if line_named(v.hd[from], name) {
        Some(spec_header_parse(v.hd[from]->0).1)
    } else {
        spec_find_header(v, name, from + 1)
    }
}

/// The value of the first header called `name`, up to ASCII case.
pub open spec fn spec_header(v: HttpView, name: Seq<char>) -> Option<Seq<char>> {
    spec_find_header(v, name, HDR_FIRST as int)
}

/// The names and values of the header lines in slots `from` to `hi`, in order.
pub open spec fn spec_lines(v: HttpView, hi: int) -> Seq<(Seq<char>, Seq<char>)>
    decreases hi,
{
    if hi <= HDR_FIRST {
        seq![]
    } else {
        let prev = spec_lines(v, hi - 1);
        match v.hd[hi - 1] {
            Some(t) => prev.push(spec_header_parse(t)),
            None => prev,
        }
    }
}

/// The names and values of all header lines, in order.
pub open spec fn spec_headers(v: HttpView) -> Seq<(Seq<char>, Seq<char>)> {
    spec_lines(v, v.nhd as int)
}

/// The line a new header `name` with `value` is stored as.
pub open spec fn header_line(name: Seq<char>, value: Seq<char>) -> Seq<char> {
    name + ": "@ + value
}

/// Appending a header: no free slot is an error; otherwise the line, with a NUL, goes into the
/// workspace, whose failure is the error; else the line takes the next slot, flags cleared.
pub open spec fn spec_set_header(v: HttpView, name: Seq<char>, value: Seq<char>) -> Result<HttpView, Seq<char>> {
    if v.nhd == v.hd.len() {
        Err("no more header slot"@)
    } else {
        let line = header_line(name, value);
        match spec_alloc(v.ws, encode_utf8(line).len() + 1) {
            Err(m) => Err(m),
            Ok((w, b)) => Ok(HttpView {
                hd: v.hd.update(v.nhd as int, Some(line)),
                hdf: v.hdf.update(v.nhd as int, 0u8),
                nhd: v.nhd + 1,
                ws: WsView { space: spec_write(w.space, b.start as int, encode_utf8(line).push(0u8)), f: w.f, e: w.e },
            }),
        }
    }
}

/// The header slots from `HDR_FIRST` to `hi` that are not called `name`, with their flags, in
/// order.
pub open spec fn spec_kept(v: HttpView, name: Seq<char>, hi: int) -> Seq<(Option<Seq<char>>, u8)>
    decreases hi,
{
    if hi <= HDR_FIRST {
        seq![]
    } else {
        let prev = spec_kept(v, name, hi - 1);
        if line_named(v.hd[hi - 1], name) { prev } else { prev.push((v.hd[hi - 1], v.hdf[hi - 1])) }
    }
}

/// The header lines from `HDR_FIRST` to `hi` that are called `name`, in order.
pub open spec fn spec_removed(v: HttpView, name: Seq<char>, hi: int) -> Seq<Seq<char>>
    decreases hi,
{
    if hi <= HDR_FIRST {
        seq![]
    } else {
        let prev = spec_removed(v, name, hi - 1);
        if line_named(v.hd[hi - 1], name) { prev.push(v.hd[hi - 1]->0) } else { prev }
    }
}

/// The table once the headers called `name` are taken out: the other header lines move up,
/// in order, and the slots past them are left as they were.
pub open spec fn spec_unset(v: HttpView, name: Seq<char>) -> HttpView {
    let kept = spec_kept(v, name, v.nhd as int);
    let first = HDR_FIRST as int;
    HttpView {
        hd: Seq::new(v.hd.len(), |j: int| if first <= j < first + kept.len() { kept[j - first].0 } else { v.hd[j] }),
        hdf: Seq::new(v.hdf.len(), |j: int| if first <= j < first + kept.len() { kept[j - first].1 } else { v.hdf[j] }),
        nhd: (first + kept.len()) as nat,
        ws: v.ws,
    }
}

proof fn lemma_kept_len(v: HttpView, name: Seq<char>, hi: int)
    ensures
        spec_kept(v, name, hi).len() <= if hi <= HDR_FIRST { 0 } else { hi - HDR_FIRST },
    decreases hi,
{
    if hi > HDR_FIRST {
        lemma_kept_len(v, name, hi - 1);
    }
}

impl HTTP {
    /// The headers of an object, from its table of lines and flags, the number of slots in use,
    /// and the workspace the lines go into.
    pub fn from_parts(hd: Vec<Option<String>>, hdf: Vec<u8>, nhd: u16, ws: WS) -> (r: Self)
        requires
            HDR_FIRST <= nhd <= hd@.len(),
            hd@.len() == hdf@.len() <= u16::MAX,
            ws@.wf(),
        ensures
            r@.hd == hd@.map_values(|o: Option<String>| opt_text(o)),
            r@.hdf == hdf@,
            r@.nhd == nhd,
            r@.ws == ws@,
            r@.wf(),
    {
        HTTP { hd, hdf, nhd, ws }
    }

    /// The table, its flags, the number of slots in use, and the workspace.
    pub fn into_parts(self) -> (r: (Vec<Option<String>>, Vec<u8>, u16, WS))
        ensures
            r.0@.map_values(|o: Option<String>| opt_text(o)) == self@.hd,
            r.1@ == self@.hdf,
            r.2 == self@.nhd,
            r.3@ == self@.ws,
    {
        (self.hd, self.hdf, self.nhd, self.ws)
    }

    /// The text of slot `idx`, when it is in use and not empty.
    fn field(&self, idx: u16) -> (r: Option<&str>)
        requires
            self@.wf(),
        ensures
            match r {
                Some(t) => idx < self@.nhd && self@.hd[idx as int] == Some(t@),
                None => idx >= self@.nhd || self@.hd[idx as int] is None,
            },
    {
        if idx >= self.nhd {
            None
        } else {
            match &self.hd[idx as usize] {
                Some(s) => Some(s.as_str()),
                None => None,
            }
        }
    }

    /// Method of an HTTP request, `None` for a response
    pub fn method(&self) -> (r: Option<&str>)
        requires
            self@.wf(),
        ensures
            opt_text_ref(r) == self@.hd[HDR_METHOD as int],
    {
        self.field(HDR_METHOD)
    }

    /// URL of an HTTP request, `None` for a response
    pub fn url(&self) -> (r: Option<&str>)
        requires
            self@.wf(),
        ensures
            opt_text_ref(r) == self@.hd[HDR_URL as int],
    {
        self.field(HDR_URL)
    }

    /// Protocol of an object
    pub fn proto(&self) -> (r: Option<&str>)
        requires
            self@.wf(),
        ensures
            opt_text_ref(r) == self@.hd[HDR_PROTO as int],
    {
        self.field(HDR_PROTO)
    }

    /// Response status, `None` for a request
    pub fn status(&self) -> (r: Option<&str>)
        requires
            self@.wf(),
        ensures
            opt_text_ref(r) == self@.hd[HDR_STATUS as int],
    {
        self.field(HDR_STATUS)
    }

    /// Response reason, `None` for a request
    pub fn reason(&self) -> (r: Option<&str>)
        requires
            self@.wf(),
        ensures
            opt_text_ref(r) == self@.hd[HDR_REASON as int],
    {
        self.field(HDR_REASON)
    }

    /// Returns the value of a header based on its name
    ///
    /// The header names are compared in a case-insensitive manner
    pub fn header(&self, name: &str) -> (r: Option<String>)
        requires
            self@.wf(),
            self@.lines_ok(),
        ensures
            match (r, spec_header(self@, name@)) {
                (Some(a), Some(b)) => a@ == b,
                (None, None) => true,
                _ => false,
            },
    {
        let mut i: u16 = HDR_FIRST;
        while i < self.nhd
            invariant
                self@.wf(),
                self@.lines_ok(),
                HDR_FIRST <= i <= self@.nhd,
                spec_find_header(self@, name@, HDR_FIRST as int) == spec_find_header(self@, name@, i as int),
            decreases self.nhd - i,
        {
            match &self.hd[i as usize] {
                Some(t) => {
                    assert(self@.hd[i as int] == Some(t@));
                    let (n, val) = header_parse(t.as_str());
                    if eq_ic(name, n.as_str()) {
                        return Some(val);
                    }
                },
                None => {
                    assert(self@.hd[i as int] is None);
                },
            }
            i = i + 1;
        }
        None
    }

    /// The names and values of the header lines, in order.
    pub fn headers(&self) -> (r: Vec<(String, String)>)
        requires
            self@.wf(),
            self@.lines_ok(),
        ensures
            r@.map_values(|p: (String, String)| (p.0@, p.1@)) == spec_headers(self@),
    {
        let mut out: Vec<(String, String)> = Vec::new();
        let mut i: u16 = HDR_FIRST;
        assert(out@.map_values(|p: (String, String)| (p.0@, p.1@)) =~= spec_lines(self@, HDR_FIRST as int));
        while i < self.nhd
            invariant
                self@.wf(),
                self@.lines_ok(),
                HDR_FIRST <= i <= self@.nhd,
                out@.map_values(|p: (String, String)| (p.0@, p.1@)) == spec_lines(self@, i as int),
            decreases self.nhd - i,
        {
            let ghost before = out@;
            match &self.hd[i as usize] {
                Some(t) => {
                    assert(self@.hd[i as int] == Some(t@));
                    let (n, val) = header_parse(t.as_str());
                    out.push((n, val));
                    assert(out@.map_values(|p: (String, String)| (p.0@, p.1@))
                        =~= before.map_values(|p: (String, String)| (p.0@, p.1@)).push((n@, val@)));
                },
                None => {
                    assert(self@.hd[i as int] is None);
                },
            }
            i = i + 1;
        }
        out
    }
}

impl HTTP {
    /// Append a new header using `name` and `value`. This can fail if we run out of internal slots
    /// to store the new header, or of room in the workspace.
    pub fn set_header(&mut self, name: &str, value: &str) -> (r: Result<(), String>)
        requires
            old(self)@.wf(),
            alloc_size_ok(encode_utf8(header_line(name@, value@)).len() + 1),
        ensures
            final(self)@.wf(),
            match (r, spec_set_header(old(self)@, name@, value@)) {
                (Ok(_), Ok(v)) => final(self)@ == v,
                (Err(m), Err(n)) => m@ == n && final(self)@ == old(self)@,
                _ => false,
            },
    {
        if self.nhd as usize == self.hd.len() {
            return Err("no more header slot".to_string());
        }
        let line = cat(cat(name, ": ").as_str(), value);
        assert(line@ == header_line(name@, value@));
        let idx = self.nhd;
        match self.ws.copy_bytes_with_null(line.as_str().as_bytes()) {
            Err(m) => Err(m),
            Ok(b) => {
                let ghost before = self@;
                self.hd.set(idx as usize, Some(line));
                self.hdf.set(idx as usize, 0u8);
                self.nhd = idx + 1;
                proof {
                    let v = spec_set_header(old(self)@, name@, value@)->Ok_0;
                    assert(self@.hd =~= v.hd);
                    assert(self@.hdf =~= v.hdf);
                }
                Ok(())
            },
        }
    }

    /// Remove every header called `name`, up to ASCII case. The other header lines keep their
    /// order. The lines taken out are handed back, in order, for the log.
    pub fn unset_header(&mut self, name: &str) -> (removed: Vec<String>)
        requires
            old(self)@.wf(),
            old(self)@.lines_full(),
        ensures
            final(self)@ == spec_unset(old(self)@, name@),
            final(self)@.wf(),
            removed@.map_values(|t: String| t@) == spec_removed(old(self)@, name@, old(self)@.nhd as int),
    {
        let ghost orig = self@;
        let mut removed: Vec<String> = Vec::new();
        let n = self.nhd;
        let mut idx: u16 = HDR_FIRST;
        let mut ie: u16 = HDR_FIRST;
        while idx < n
            invariant
                orig.wf(),
                orig.lines_full(),
                HDR_FIRST <= ie <= idx <= n,
                n == orig.nhd,
                self.nhd == n,
                self@.hd.len() == orig.hd.len(),
                self@.hdf.len() == orig.hdf.len(),
                self@.ws == orig.ws,
                ie - HDR_FIRST == spec_kept(orig, name@, idx as int).len(),
                forall|j: int| HDR_FIRST <= j < ie ==> #[trigger] self@.hd[j] == spec_kept(orig, name@, idx as int)[j - HDR_FIRST].0,
                forall|j: int| HDR_FIRST <= j < ie ==> #[trigger] self@.hdf[j] == spec_kept(orig, name@, idx as int)[j - HDR_FIRST].1,
                forall|j: int| 0 <= j < self@.hd.len() && !(HDR_FIRST <= j < ie) ==> #[trigger] self@.hd[j] == orig.hd[j],
                forall|j: int| 0 <= j < self@.hdf.len() && !(HDR_FIRST <= j < ie) ==> #[trigger] self@.hdf[j] == orig.hdf[j],
                removed@.map_values(|t: String| t@) == spec_removed(orig, name@, idx as int),
            decreases n - idx,
        {
            let ghost k0 = spec_kept(orig, name@, idx as int);
            let ghost r0 = removed@.map_values(|t: String| t@);
            assert(self@.hd[idx as int] == orig.hd[idx as int]);
            let named = match &self.hd[idx as usize] {
                Some(t) => {
                    let (nm, _) = header_parse(t.as_str());
                    let hit = eq_ic(name, nm.as_str());
                    if hit {
                        removed.push(t.clone());
                        assert(removed@.map_values(|t: String| t@) =~= r0.push(orig.hd[idx as int]->0));
                    }
                    hit
                },
                None => false,
            };
            if !named {
                if idx != ie {
                    let moved = match &self.hd[idx as usize] {
                        Some(t) => Some(t.clone()),
                        None => None,
                    };
                    let flag = self.hdf[idx as usize];
                    let ghost before_hd = self@.hd;
                    let ghost moved_text = opt_text(moved);
                    assert(moved_text == orig.hd[idx as int]);
                    self.hd.set(ie as usize, moved);
                    self.hdf.set(ie as usize, flag);
                    assert(self@.hd =~= before_hd.update(ie as int, moved_text));
                }
                ie = ie + 1;
            }
            idx = idx + 1;
            proof {
                let k1 = spec_kept(orig, name@, idx as int);
                if !named {
                    assert(removed@.map_values(|t: String| t@) =~= r0);
                }
                if named {
                    assert(k1 == k0);
                } else {
                    assert(k1 == k0.push((orig.hd[idx - 1], orig.hdf[idx - 1])));
                }
            }
        }
        self.nhd = ie;
        proof {
            let v = spec_unset(orig, name@);
            assert(self@.hd =~= v.hd);
            assert(self@.hdf =~= v.hdf);
        }
        removed
    }
}

proof fn lemma_parse_new_line(name: Seq<char>, value: Seq<char>)
    requires
        first_where(name, true) is None,
        value.len() > 0 ==> !is_ascii_ws(value[0]),
    ensures
        has_colon(header_line(name, value)),
        spec_header_parse(header_line(name, value)) == (name, value),
{
    let line = header_line(name, value);
    reveal_strlit(": ");
    assert(": "@ =~= seq![':', ' ']);
    lemma_first_where(name, true);
    assert(line.take(name.len() as int) =~= name);
    lemma_first_where_prefix(line, true, name.len() as int);
    let after = line.skip(name.len() as int + 1);
    assert(after =~= seq![' '] + value);
    assert(after.take(1) =~= seq![' ']);
    assert(first_where(after.take(1).drop_last(), false) is None);
    assert(first_where(after.take(1), false) is None);
    if value.len() > 0 {
        lemma_first_where_prefix(after, false, 1);
        assert(after.skip(1) =~= value);
    } else {
        assert(after =~= seq![' ']);
        assert(after.drop_last() =~= Seq::<char>::empty());
        assert(first_where(after, false) is None);
    }
}

proof fn lemma_find_after_set(v: HttpView, v2: HttpView, name: Seq<char>, value: Seq<char>, i: int)
    requires
        v.wf(),
        v2 == spec_set_header(v, name, value)->Ok_0,
        spec_set_header(v, name, value) is Ok,
        HDR_FIRST <= i <= v.nhd,
        spec_find_header(v, name, i) is None,
        spec_header_parse(header_line(name, value)) == (name, value),
    ensures
        spec_find_header(v2, name, i) == Some(value),
    decreases v.nhd - i,
{
    if i < v.nhd {
        assert(v2.hd[i] == v.hd[i]);
        lemma_find_after_set(v, v2, name, value, i + 1);
    } else {
        assert(v2.hd[i] == Some(header_line(name, value)));
        assert(eq_ignore_ascii_case(name, name));
    }
}

/// A header set where none of that name was gives its value back when read under any name equal
/// to it up to ASCII case, for a name without a colon and a value that does not start with
/// whitespace (the empty value included).
pub proof fn lemma_set_then_header(v: HttpView, name: Seq<char>, value: Seq<char>)
    requires
        v.wf(),
        spec_set_header(v, name, value) is Ok,
        spec_header(v, name) is None,
        first_where(name, true) is None,
        value.len() > 0 ==> !is_ascii_ws(value[0]),
    ensures
        spec_header(spec_set_header(v, name, value)->Ok_0, name) == Some(value),
        forall|n: Seq<char>| eq_ignore_ascii_case(n, name)
            ==> #[trigger] spec_header(spec_set_header(v, name, value)->Ok_0, n) == Some(value),
        v.lines_ok() ==> spec_set_header(v, name, value)->Ok_0.lines_ok(),
{
    let v2 = spec_set_header(v, name, value)->Ok_0;
    lemma_parse_new_line(name, value);
    lemma_find_after_set(v, v2, name, value, HDR_FIRST as int);
    if v.lines_ok() {
        assert forall|i: int| HDR_FIRST <= i < v2.nhd && (#[trigger] v2.hd[i]) is Some implies has_colon(v2.hd[i]->0) by {
            if i < v.nhd {
                assert(v2.hd[i] == v.hd[i]);
            }
        }
    }
    assert forall|n: Seq<char>| eq_ignore_ascii_case(n, name)
        implies #[trigger] spec_header(v2, n) == Some(value) by {
        lemma_header_ignores_case(v2, n, name);
    }
}

proof fn lemma_kept_not_named(v: HttpView, name: Seq<char>, hi: int)
    ensures
        forall|k: int| 0 <= k < spec_kept(v, name, hi).len() ==> !line_named(#[trigger] spec_kept(v, name, hi)[k].0, name),
    decreases hi,
{
    if hi > HDR_FIRST {
        lemma_kept_not_named(v, name, hi - 1);
        let prev = spec_kept(v, name, hi - 1);
        let cur = spec_kept(v, name, hi);
        assert forall|k: int| 0 <= k < cur.len() implies !line_named(#[trigger] cur[k].0, name) by {
            if k < prev.len() {
                assert(cur[k] == prev[k]);
            }
        }
    }
}

proof fn lemma_find_none_after_unset(u: HttpView, name: Seq<char>, kept: Seq<(Option<Seq<char>>, u8)>, i: int)
    requires
        u.nhd == HDR_FIRST + kept.len(),
        HDR_FIRST <= i <= u.nhd,
        forall|j: int| HDR_FIRST <= j < u.nhd ==> #[trigger] u.hd[j] == kept[j - HDR_FIRST].0,
        forall|k: int| 0 <= k < kept.len() ==> !line_named(#[trigger] kept[k].0, name),
    ensures
        spec_find_header(u, name, i) is None,
    decreases u.nhd - i,
{
    if i < u.nhd {
        assert(u.hd[i] == kept[i - HDR_FIRST].0);
        lemma_find_none_after_unset(u, name, kept, i + 1);
    }
}

/// Once the headers called `name` are taken out, none of that name is left to read.
pub proof fn lemma_unset_then_header(v: HttpView, name: Seq<char>)
    requires
        v.wf(),
    ensures
        spec_header(spec_unset(v, name), name) is None,
{
    let u = spec_unset(v, name);
    let kept = spec_kept(v, name, v.nhd as int);
    lemma_kept_len(v, name, v.nhd as int);
    lemma_kept_not_named(v, name, v.nhd as int);
    lemma_find_none_after_unset(u, name, kept, HDR_FIRST as int);
}

proof fn lemma_find_ignores_case(v: HttpView, a: Seq<char>, b: Seq<char>, from: int)
    requires
        eq_ignore_ascii_case(a, b),
    ensures
        spec_find_header(v, a, from) == spec_find_header(v, b, from),
    decreases v.nhd - from,
{
    if from < v.nhd {
        if let Some(t) = v.hd[from] {
            let n = spec_header_parse(t).0;
            if eq_ignore_ascii_case(a, n) {
                assert forall|i: int| 0 <= i < b.len() implies ascii_lower(#[trigger] b[i] as u32) == ascii_lower(n[i] as u32) by {
                    assert(ascii_lower(a[i] as u32) == ascii_lower(b[i] as u32));
                }
            }
            if eq_ignore_ascii_case(b, n) {
                assert forall|i: int| 0 <= i < a.len() implies ascii_lower(#[trigger] a[i] as u32) == ascii_lower(n[i] as u32) by {
                    assert(ascii_lower(a[i] as u32) == ascii_lower(b[i] as u32));
                }
            }
        }
        lemma_find_ignores_case(v, a, b, from + 1);
    }
}

/// Header names compare without regard to ASCII case: two names equal up to case read the same
/// header.
pub proof fn lemma_header_ignores_case(v: HttpView, a: Seq<char>, b: Seq<char>)
    requires
        eq_ignore_ascii_case(a, b),
    ensures
        spec_header(v, a) == spec_header(v, b),
{
    lemma_find_ignores_case(v, a, b, HDR_FIRST as int);
}

/// The text of an optional borrowed string.
pub open spec fn opt_text_ref(o: Option<&str>) -> Option<Seq<char>> {
    match o {
        Some(s) => Some(s@),
        None => None,
    }
}

} // verus!
