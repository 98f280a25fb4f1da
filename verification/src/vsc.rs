//! Varnish statistics: the kinds and units of a counter, the filters handed to the statistics
//! reader, and the set of live statistics it maintains as points come and go.
use std::collections::HashMap;
use vstd::prelude::*;

verus! {

broadcast use vstd::std_specs::hash::group_hash_axioms;

/// A code that names a `char`: what the C side hands over for a kind or a unit.
pub open spec fn is_char_code(value: i32) -> bool {
    0 <= value <= 0x10FFFF && !(0xD800 <= value <= 0xDFFF)
}

/// Kind of data
#[derive(Debug, Copy, Clone, PartialEq, Eq, Structural)]
pub enum Semantics {
    /// Value only goes up (e.g. amount of bytes transfered)
    Counter,
    /// Value can go up and down (e.g. amount of current connections)
    Gauge,
    /// Value is to be read as 64 booleans packed together as a `u64`
    Bitmap,
    /// No information on this value
    Unknown,
}

pub open spec fn spec_semantics_of(value: i32) -> Semantics {
    if value == 99 {
        Semantics::Counter
    } else if value == 103 {
        Semantics::Gauge
    } else if value == 98 {
        Semantics::Bitmap
    } else {
        Semantics::Unknown
    }
}

pub open spec fn spec_semantics_char(s: Semantics) -> char {
    match s {
        Semantics::Counter => 'c',
        Semantics::Gauge => 'g',
        Semantics::Bitmap => 'b',
        Semantics::Unknown => '?',
    }
}

impl Semantics {
    /// The kind named by a C `char` code: `'c'`, `'g'` or `'b'`, anything else being unknown.
    pub fn from_c_int(value: i32) -> (r: Self)
        requires
            is_char_code(value),
        ensures
            r == spec_semantics_of(value),
    {
        if value == 99 {
            Semantics::Counter
        } else if value == 103 {
            Semantics::Gauge
        } else if value == 98 {
            Semantics::Bitmap
        } else {
            Semantics::Unknown
        }
    }
}

impl From<Semantics> for char {
    fn from(value: Semantics) -> (r: char) {
        match value {
            Semantics::Counter => 'c',
            Semantics::Gauge => 'g',
            Semantics::Bitmap => 'b',
            Semantics::Unknown => '?',
        }
    }
}

impl vstd::std_specs::convert::FromSpecImpl<Semantics> for char {
    open spec fn obeys_from_spec() -> bool {
        true
    }

    open spec fn from_spec(v: Semantics) -> char {
        spec_semantics_char(v)
    }
}

/// Unit of a value
#[derive(Debug, Copy, Clone, PartialEq, Eq, Structural)]
pub enum Format {
    /// No unit
    Integer,
    /// Bytes, for data volumes
    Bytes,
    /// No unit, generally used with [`Semantics::Bitmap`]
    Bitmap,
    /// Time
    Duration,
    /// Unit unknown
    Unknown,
}

pub open spec fn spec_format_of(value: i32) -> Format {
    if value == 105 {
        Format::Integer
    } else if value == 66 {
        Format::Bytes
    } else if value == 98 {
        Format::Bitmap
    } else if value == 100 {
        Format::Duration
    } else {
        Format::Unknown
    }
}

pub open spec fn spec_format_char(f: Format) -> char {
    match f {
        Format::Integer => 'i',
        Format::Bytes => 'B',
        Format::Bitmap => 'b',
        Format::Duration => 'd',
        Format::Unknown => '?',
    }
}

impl Format {
    /// The unit named by a C `char` code: `'i'`, `'B'`, `'b'` or `'d'`, anything else being
    /// unknown.
    pub fn from_c_int(value: i32) -> (r: Self)
        requires
            is_char_code(value),
        ensures
            r == spec_format_of(value),
    {
        if value == 105 {
            Format::Integer
        } else if value == 66 {
            Format::Bytes
        } else if value == 98 {
            Format::Bitmap
        } else if value == 100 {
            Format::Duration
        } else {
            Format::Unknown
        }
    }
}

impl From<Format> for char {
    fn from(value: Format) -> (r: char) {
        match value {
            Format::Integer => 'i',
            Format::Bytes => 'B',
            Format::Bitmap => 'b',
            Format::Duration => 'd',
            Format::Unknown => '?',
        }
    }
}

impl vstd::std_specs::convert::FromSpecImpl<Format> for char {
    open spec fn obeys_from_spec() -> bool {
        true
    }

    open spec fn from_spec(v: Format) -> char {
        spec_format_char(v)
    }
}

/// A live statistic, with the raw value it had when it was read
#[derive(Debug, Clone)]
pub struct Stat {
    pub value: u64,
    pub name: String,
    pub short_desc: String,
    pub long_desc: String,
    pub semantics: Semantics,
    pub format: Format,
}

/// A gauge read while threads move it may have gone below zero and wrapped: such a value reads
/// as 0.
pub open spec fn spec_clamped(v: u64) -> u64 {
    if v <= i64::MAX as u64 { v } else { 0 }
}

impl Stat {
    /// The value of the statistic, as-is
    pub fn get_raw_value(&self) -> (r: u64)
        ensures
            r == self.value,
    {
        self.value
    }

    /// The value of the statistic, a wrapped-around value reading as 0
    pub fn get_clamped_value(&self) -> (r: u64)
        ensures
            r == spec_clamped(self.value),
    {
        if self.value <= 0x7fff_ffff_ffff_ffffu64 {
            self.value
        } else {
            0
        }
    }
}

/// A string handed to the C side held a NUL byte, at this byte offset.
#[derive(Debug, Clone, Copy, PartialEq, Eq, Structural)]
pub struct NulError {
    pub position: usize,
}

/// Number of bytes of `c` in UTF-8.
pub open spec fn utf8_len(c: char) -> nat {
    if (c as u32) < 0x80 {
        1
    } else if (c as u32) < 0x800 {
        2
    } else if (c as u32) < 0x10000 {
        3
    } else {
        4
    }
}

/// Number of bytes of `s` in UTF-8.
pub open spec fn utf8_bytes(s: Seq<char>) -> nat
    decreases s.len(),
{
    if s.len() == 0 {
        0
    } else {
        utf8_bytes(s.drop_last()) + utf8_len(s.last())
    }
}

/// Index of the first NUL character of `s`.
pub open spec fn first_nul(s: Seq<char>) -> Option<int>
    decreases s.len(),
{
    if s.len() == 0 {
        None
    } else {
        match first_nul(s.drop_last()) {
            Some(i) => Some(i),
            None => if s.last() == '\0' { Some(s.len() - 1) } else { None },
        }
    }
}

/// Where the first NUL of `s` stands, as a byte offset; `None` when `s` can be handed over as a
/// C string.
pub open spec fn spec_nul_position(s: Seq<char>) -> Option<nat> {
    match first_nul(s) {
        Some(i) => Some(utf8_bytes(s.take(i))),
        None => None,
    }
}

proof fn lemma_utf8_bytes_bound(s: Seq<char>)
    ensures
        utf8_bytes(s) <= 4 * s.len(),
    decreases s.len(),
{
    if s.len() > 0 {
        lemma_utf8_bytes_bound(s.drop_last());
    }
}

/// The byte offset of the first NUL of `s`, if it has one.
fn nul_position(s: &str) -> (r: Option<usize>)
    requires
        4 * s@.len() <= usize::MAX,
    ensures
        match (r, spec_nul_position(s@)) {
            (Some(p), Some(q)) => p == q,
            (None, None) => true,
            _ => false,
        },
{
    let chars = crate::text::chars_of(s);
    let mut bytes: usize = 0;
    let mut i: usize = 0;
    while i < chars.len()
        invariant
            chars@ == s@,
            i <= chars.len(),
            4 * s@.len() <= usize::MAX,
            first_nul(s@.take(i as int)) is None,
            bytes == utf8_bytes(s@.take(i as int)),
        decreases chars.len() - i,
    {
        let c = chars[i];
        assert(s@.take(i + 1).drop_last() =~= s@.take(i as int));
        if c == '\0' {
            proof {
                lemma_first_nul_prefix(s@, i as int);
            }
            return Some(bytes);
        }
        proof {
            lemma_utf8_bytes_bound(s@.take(i + 1));
        }
        let n: usize = if (c as u32) < 0x80 {
            1
        } else if (c as u32) < 0x800 {
            2
        } else if (c as u32) < 0x10000 {
            3
        } else {
            4
        };
        bytes = bytes + n;
        i = i + 1;
    }
    assert(s@.take(s@.len() as int) =~= s@);
    None
}

proof fn lemma_first_nul_prefix(s: Seq<char>, i: int)
    requires
        0 <= i < s.len(),
        s[i] == '\0',
        first_nul(s.take(i)) is None,
    ensures
        first_nul(s) == Some(i),
    decreases s.len(),
{
    if i < s.len() - 1 {
        assert(s.drop_last().take(i) =~= s.take(i));
        lemma_first_nul_prefix(s.drop_last(), i);
    } else {
        assert(s.drop_last() =~= s.take(i));
    }
}

/// An option handed to the statistics reader: a letter, and its argument if it takes one.
#[derive(Debug, Clone)]
pub struct VscArg {
    pub opt: char,
    pub value: Option<String>,
}

pub open spec fn vsc_arg_view(a: VscArg) -> (char, Option<Seq<char>>) {
    (a.opt, match a.value {
        Some(s) => Some(s@),
        None => None,
    })
}

/// Initialize and configure a [`VSC`]: the options for the statistics reader, in the order they
/// will be handed over.
pub struct VSCBuilder {
    args: Vec<VscArg>,
}

impl View for VSCBuilder {
    type V = Seq<(char, Option<Seq<char>>)>;

    closed spec fn view(&self) -> Self::V {
        self.args@.map_values(|a: VscArg| vsc_arg_view(a))
    }
}

/// The builder once `opt` with the pattern `s` is added, or the offset of the NUL byte that
/// keeps `s` from being handed over.
pub open spec fn spec_vsc_arg(b: Seq<(char, Option<Seq<char>>)>, opt: char, s: Seq<char>)
    -> Result<Seq<(char, Option<Seq<char>>)>, NulError>
{
    match spec_nul_position(s) {
        Some(p) => Err(NulError { position: p as usize }),
        None => Ok(b.push((opt, Some(s)))),
    }
}

impl VSCBuilder {
    /// Create a new `VSCBuilder`: values are read raw, and can always be clamped later.
    pub fn new() -> (r: Self)
        ensures
            r@ == seq![('r', None::<Seq<char>>)],
    {
        let mut args: Vec<VscArg> = Vec::new();
        args.push(VscArg { opt: 'r', value: None });
        let r = VSCBuilder { args };
        assert(r@ =~= seq![('r', None::<Seq<char>>)]);
        r
    }

    /// The options, in the order they will be handed over.
    pub fn args(&self) -> (r: &Vec<VscArg>)
        ensures
            r@.map_values(|a: VscArg| vsc_arg_view(a)) == self@,
    {
        &self.args
    }

    fn vsc_arg(self, o: char, s: &str) -> (r: Result<Self, NulError>)
        requires
            4 * s@.len() <= usize::MAX,
        ensures
            match (r, spec_vsc_arg(self@, o, s@)) {
                (Ok(b), Ok(v)) => b@ == v,
                (Err(e), Err(f)) => e == f,
                _ => false,
            },
    {
        match nul_position(s) {
            Some(p) => Err(NulError { position: p }),
            None => {
                let mut b = self;
                let ghost before = b.args@;
                b.args.push(VscArg { opt: o, value: Some(s.to_string()) });
                assert(b@ =~= self@.push((o, Some(s@))));
                Ok(b)
            },
        }
    }

    /// Provide a globbing pattern of statistics names to keep in the set.
    ///
    /// May be called multiple times, interleaved with [`VSCBuilder::exclude()`], the order matters.
    pub fn include_glob(self, s: &str) -> (r: Result<Self, NulError>)
        requires
            4 * s@.len() <= usize::MAX,
        ensures
            match (r, spec_vsc_arg(self@, 'I', s@)) {
                (Ok(b), Ok(v)) => b@ == v,
                (Err(e), Err(f)) => e == f,
                _ => false,
            },
    {
        self.vsc_arg('I', s)
    }

    /// Provide a globbing pattern of statistics names to exclude.
    ///
    /// May be called multiple times, interleaved with [`VSCBuilder::include_glob()`], the order matters.
    pub fn exclude(self, s: &str) -> (r: Result<Self, NulError>)
        requires
            4 * s@.len() <= usize::MAX,
        ensures
            match (r, spec_vsc_arg(self@, 'X', s@)) {
                (Ok(b), Ok(v)) => b@ == v,
                (Err(e), Err(f)) => e == f,
                _ => false,
            },
    {
        self.vsc_arg('X', s)
    }

    /// Provide a globbing pattern of statistics names to keep around, protecting them from
    /// exclusion.
    pub fn require(self, s: &str) -> (r: Result<Self, NulError>)
        requires
            4 * s@.len() <= usize::MAX,
        ensures
            match (r, spec_vsc_arg(self@, 'R', s@)) {
                (Ok(b), Ok(v)) => b@ == v,
                (Err(e), Err(f)) => e == f,
                _ => false,
            },
    {
        self.vsc_arg('R', s)
    }
}

/// A statistics set: the statistics the reader currently exposes, keyed by a handle, and the
/// handles that appeared and disappeared since the last [`VSC::update()`].
pub struct VSC {
    points: HashMap<usize, Stat>,
    added: Vec<usize>,
    deleted: Vec<usize>,
}

/// The view of a [`VSC`]: the statistics by handle, then the handles added and deleted since the
/// last update.
pub struct VscView {
    pub points: Map<usize, Stat>,
    pub added: Seq<usize>,
    pub deleted: Seq<usize>,
}

impl View for VSC {
    type V = VscView;

    closed spec fn view(&self) -> VscView {
        VscView { points: self.points@, added: self.added@, deleted: self.deleted@ }
    }
}

/// The set once the reader finds `stat` under the handle `k`.
pub open spec fn spec_add_point(v: VscView, k: usize, stat: Stat) -> VscView {
    VscView { points: v.points.insert(k, stat), added: v.added.push(k), deleted: v.deleted }
}

/// The set once the statistic under the handle `k` goes away.
pub open spec fn spec_del_point(v: VscView, k: usize) -> VscView {
    VscView { points: v.points.remove(k), added: v.added, deleted: v.deleted.push(k) }
}

/// The set once an update hands out the lists, and the lists it hands out.
pub open spec fn spec_update(v: VscView) -> (VscView, Seq<usize>, Seq<usize>) {
    (VscView { points: v.points, added: Seq::empty(), deleted: Seq::empty() }, v.added, v.deleted)
}

impl VSC {
    /// A set with no statistic yet.
    pub fn new() -> (r: Self)
        ensures
            r@.points == Map::<usize, Stat>::empty(),
            r@.added == Seq::<usize>::empty(),
            r@.deleted == Seq::<usize>::empty(),
    {
        VSC { points: HashMap::new(), added: Vec::new(), deleted: Vec::new() }
    }

    /// Return a statistic set
    ///
    /// Names are not necessarily unique, so instead, statistics are tracked using `usize` handle
    /// that can help you track which ones (dis)appeared during a [`VSC::update()`] call.
    pub fn stats(&self) -> (r: &HashMap<usize, Stat>)
        ensures
            r@ == self@.points,
    {
        &self.points
    }

    /// The reader found a new statistic under handle `k`.
    pub fn add_point(&mut self, k: usize, stat: Stat)
        requires
            !old(self)@.points.contains_key(k),
        ensures
            final(self)@ == spec_add_point(old(self)@, k, stat),
    {
        let prev = self.points.insert(k, stat);
        self.added.push(k);
    }

    /// The statistic under handle `k` went away.
    pub fn del_point(&mut self, k: usize)
        requires
            old(self)@.points.contains_key(k),
        ensures
            final(self)@ == spec_del_point(old(self)@, k),
    {
        self.deleted.push(k);
        let prev = self.points.remove(&k);
    }

    /// Hands out the handles added and deleted since the last update, and starts both lists
    /// afresh. A handle in both lists names a statistic that got replaced.
    pub fn update(&mut self) -> (r: (Vec<usize>, Vec<usize>))
        ensures
            (final(self)@, r.0@, r.1@) == spec_update(old(self)@),
    {
        let mut added: Vec<usize> = Vec::new();
        let mut deleted: Vec<usize> = Vec::new();
        std::mem::swap(&mut added, &mut self.added);
        std::mem::swap(&mut deleted, &mut self.deleted);
        (added, deleted)
    }
}

/// A statistic replaced between two updates shows in both lists the next update hands out, and
/// the set then holds the new statistic under that handle; an update right after an update hands
/// out nothing.
pub proof fn lemma_replaced_stat(v: VscView, k: usize, s: Stat)
    requires
        v.points.contains_key(k),
    ensures
        ({
            let (after, added, deleted) = spec_update(spec_add_point(spec_del_point(v, k), k, s));
            &&& added.contains(k)
            &&& deleted.contains(k)
            &&& after.points.contains_key(k) && after.points[k] == s
            &&& after.points.dom() == v.points.dom()
            &&& spec_update(after).1.len() == 0 && spec_update(after).2.len() == 0
        }),
{
    let (after, added, deleted) = spec_update(spec_add_point(spec_del_point(v, k), k, s));
    assert(added[added.len() - 1] == k);
    assert(deleted[deleted.len() - 1] == k);
    assert(after.points.dom() =~= v.points.dom());
}

/// A change the statistics reader sees: a statistic found under a handle, or the statistic under
/// a handle gone.
pub enum VscEvent {
    Add(usize, Stat),
    Del(usize),
}

/// The set once the reader has seen `evs`, in order.
pub open spec fn spec_run(v: VscView, evs: Seq<VscEvent>) -> VscView
    decreases evs.len(),
{
    if evs.len() == 0 {
        v
    } else {
        let w = spec_run(v, evs.drop_last());
        match evs.last() {
            VscEvent::Add(k, s) => spec_add_point(w, k, s),
            VscEvent::Del(k) => spec_del_point(w, k),
        }
    }
}

proof fn lemma_push_contains(s: Seq<usize>, x: usize, k: usize)
    ensures
        s.push(x).contains(k) <==> (s.contains(k) || k == x),
{
    if s.contains(k) {
        let i = choose|i: int| 0 <= i < s.len() && s[i] == k;
        assert(s.push(x)[i] == k);
    }
    if k == x {
        assert(s.push(x)[s.len() as int] == k);
    }
    if s.push(x).contains(k) {
        let i = choose|i: int| 0 <= i < s.len() + 1 && s.push(x)[i] == k;
        if i < s.len() {
            assert(s[i] == k);
        }
    }
}

proof fn lemma_run_lists(v: VscView, evs: Seq<VscEvent>)
    ensures
        ({
            let w = spec_run(v, evs);
            &&& forall|k: usize| #[trigger] w.points.contains_key(k) && !v.points.contains_key(k) ==> w.added.contains(k)
            &&& forall|k: usize| #[trigger] v.points.contains_key(k) && !w.points.contains_key(k) ==> w.deleted.contains(k)
            &&& forall|k: usize| #[trigger] w.points.contains_key(k) ==> v.points.contains_key(k) || w.added.contains(k)
            &&& forall|k: usize| #[trigger] v.points.contains_key(k) && !w.deleted.contains(k) && !w.added.contains(k)
                ==> w.points.contains_key(k) && w.points[k] == v.points[k]
            &&& forall|k: usize| #[trigger] v.added.contains(k) ==> w.added.contains(k)
            &&& forall|k: usize| #[trigger] v.deleted.contains(k) ==> w.deleted.contains(k)
        }),
    decreases evs.len(),
{
    if evs.len() > 0 {
        let p = spec_run(v, evs.drop_last());
        lemma_run_lists(v, evs.drop_last());
        let w = spec_run(v, evs);
        match evs.last() {
            VscEvent::Add(x, st) => {
                assert forall|k: usize| #[trigger] w.added.contains(k) <==> (p.added.contains(k) || k == x) by {
                    lemma_push_contains(p.added, x, k);
                }
                assert(w.deleted == p.deleted);
            },
            VscEvent::Del(x) => {
                assert forall|k: usize| #[trigger] w.deleted.contains(k) <==> (p.deleted.contains(k) || k == x) by {
                    lemma_push_contains(p.deleted, x, k);
                }
                assert(w.added == p.added);
            },
        }
    }
}

/// The lists an update hands out account for every change since the last update: a statistic
/// that appeared is listed as added, one that went away is listed as deleted (one listed in both
/// was replaced), every statistic now in the set was there before or is listed as added, one
/// listed in neither is the statistic that was there; and an update right after hands out nothing.
pub proof fn lemma_update_lists(v: VscView, evs: Seq<VscEvent>)
    requires
        v.added.len() == 0,
        v.deleted.len() == 0,
    ensures
        ({
            let (after, added, deleted) = spec_update(spec_run(v, evs));
            &&& forall|k: usize| #[trigger] after.points.contains_key(k) && !v.points.contains_key(k) ==> added.contains(k)
            &&& forall|k: usize| #[trigger] v.points.contains_key(k) && !after.points.contains_key(k) ==> deleted.contains(k)
            &&& forall|k: usize| #[trigger] after.points.contains_key(k) ==> v.points.contains_key(k) || added.contains(k)
            &&& forall|k: usize| #[trigger] v.points.contains_key(k) && !deleted.contains(k) && !added.contains(k)
                ==> after.points.contains_key(k) && after.points[k] == v.points[k]
            &&& spec_update(after).1.len() == 0 && spec_update(after).2.len() == 0
        }),
{
    lemma_run_lists(v, evs);
}

} // verus!
