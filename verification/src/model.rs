//! The data model of a VMOD: the validated result of parsing the user's `mod`, which the
//! generators then turn into the code and the metadata that Varnish loads.
use vstd::prelude::*;

verus! {

/// Represents the entire VMOD. A single instance is parsed for each VMOD.
#[derive(Debug)]
pub struct VmodInfo {
    pub params: VmodParams,
    pub ident: String,
    pub docs: String,
    pub funcs: Vec<FuncInfo>,
    pub objects: Vec<ObjInfo>,
    pub shared_types: SharedTypes,
}

/// Represents the shared types used by multiple functions. Each of these types is unique per VMOD.
#[derive(Debug)]
pub struct SharedTypes {
    pub shared_per_task_ty: Option<String>,
    pub shared_per_vcl_ty: Option<String>,
}

/// Represents the parameters inside the `#[vmod(....)]` attribute itself.
#[derive(Debug)]
pub struct VmodParams {
    pub docs: Option<String>,
}

/// Represents the object information parsed from an `impl` block.
#[derive(Debug)]
pub struct ObjInfo {
    pub ident: String,
    pub docs: String,
    pub constructor: FuncInfo,
    pub destructor: FuncInfo,
    pub funcs: Vec<FuncInfo>,
}

/// Represents the function information parsed from a function or method.
#[derive(Debug)]
pub struct FuncInfo {
    pub func_type: FuncType,
    pub ident: String,
    pub docs: String,
    pub has_optional_args: bool,
    pub args: Vec<ParamTypeInfo>,
    pub output_ty: OutputTy,
    pub out_result: bool,
}

/// What kind of function is this?
#[derive(Debug, Clone, Copy, PartialEq, Eq, Structural)]
pub enum FuncType {
    Function,
    Constructor,
    Destructor,
    Method,
    Event,
}

/// Represents the information about a single function argument.
#[derive(Debug)]
pub struct ParamTypeInfo {
    pub ident: String,
    pub docs: String,
    pub ty: ParamType,
}

/// Represents the type of the function argument.
#[derive(Debug)]
pub enum ParamType {
    /// An argument representing Varnish context (`VRT_CTX`) wrapper
    Context { is_mut: bool },
    /// An argument representing Varnish Workspace wrapper
    Workspace { is_mut: bool },
    /// For object methods, the first argument is always a reference to the object
    SelfType,
    /// An argument is an event type
    Event,
    /// A `&str` or `&CStr` argument automatically passed for object creation representing a VCL name.
    VclName(ParamInfo),
    /// `&mut Option<Box<T>>`, shared across tasks (i.e. `PRIV_TASK`)
    SharedPerTask,
    /// A readonly `Option<&T>` shared across a VCL load (i.e. `PRIV_VCL`)
    SharedPerVclRef,
    /// A mutable `&mut Option<Box<T>>` shared across a VCL load (i.e. `PRIV_VCL`)
    SharedPerVclMut,
    /// An argument is a fetch filter registry
    FetchFilters,
    /// An argument is a delivery filter registry
    DeliveryFilters,
    /// An argument representing a basic VCL type
    Value(ParamInfo),
}

/// How an argument of a basic VCL type was declared.
#[derive(Debug, Clone, Copy, PartialEq, Eq, Structural)]
pub enum ParamKind {
    /// Type is declared without the `Option<...>`
    Regular,
    /// Type is declared with the `Option<...>`
    Optional,
    /// Type is declared with the `Option<...>`, but has a `#[required]` attribute.
    Required,
}

/// Represents the information about the common function argument types.
#[derive(Debug)]
pub struct ParamInfo {
    pub kind: ParamKind,
    /// The default value, as the JSON text of the value (`None` when there is no default)
    pub default: Option<String>,
    pub ty_info: ParamTy,
}

/// Represents the common function argument types. These could also be returned.
#[derive(Debug, Clone, Copy, PartialEq, Eq, Structural)]
pub enum ParamTy {
    Bool,
    Duration,
    F64,
    I64,
    Probe,
    ProbeCow,
    SocketAddr,
    Str,
    CStr,
}

/// Represents all return types of functions.
#[derive(Debug)]
pub enum OutputTy {
    BackendHandle,
    /// Nothing is returned
    Default,
    SelfType,
    ParamType(ParamTy),
    String,
    Bytes,
    /// Raw VCL type, stored as the `VCL_...` name written in the source
    VclType(String),
}

/// The VCC keyword that introduces a function of the given kind.
pub open spec fn spec_func_vcc_type(t: FuncType) -> Seq<char> {
    match t {
        FuncType::Function => "$FUNC"@,
        FuncType::Constructor => "$INIT"@,
        FuncType::Destructor => "$FINI"@,
        FuncType::Method => "$METHOD"@,
        FuncType::Event => "$EVENT"@,
    }
}

impl FuncType {
    pub fn to_vcc_type(self) -> (r: &'static str)
        ensures
            r@ == spec_func_vcc_type(self),
    {
        match self {
            FuncType::Function => "$FUNC",
            FuncType::Constructor => "$INIT",
            FuncType::Destructor => "$FINI",
            FuncType::Method => "$METHOD",
            FuncType::Event => "$EVENT",
        }
    }
}

/// The VCC name of a basic VCL type.
pub open spec fn spec_param_vcc_type(t: ParamTy) -> Seq<char> {
    match t {
        ParamTy::Bool => "BOOL"@,
        ParamTy::Duration => "DURATION"@,
        ParamTy::F64 => "REAL"@,
        ParamTy::I64 => "INT"@,
        ParamTy::Probe | ParamTy::ProbeCow => "PROBE"@,
        ParamTy::SocketAddr => "IP"@,
        ParamTy::Str | ParamTy::CStr => "STRING"@,
    }
}

/// The C name of a basic VCL type.
pub open spec fn spec_param_c_type(t: ParamTy) -> Seq<char> {
    match t {
        ParamTy::Bool => "VCL_BOOL"@,
        ParamTy::Duration => "VCL_DURATION"@,
        ParamTy::F64 => "VCL_REAL"@,
        ParamTy::I64 => "VCL_INT"@,
        ParamTy::Probe | ParamTy::ProbeCow => "VCL_PROBE"@,
        ParamTy::SocketAddr => "VCL_IP"@,
        ParamTy::Str | ParamTy::CStr => "VCL_STRING"@,
    }
}

/// Types that the user must wrap in an `Option`.
pub open spec fn spec_must_be_optional(t: ParamTy) -> bool {
    t is Probe || t is ProbeCow || t is SocketAddr
}

impl ParamTy {
    pub fn to_vcc_type(self) -> (r: &'static str)
        ensures
            r@ == spec_param_vcc_type(self),
    {
        match self {
            ParamTy::Bool => "BOOL",
            ParamTy::Duration => "DURATION",
            ParamTy::F64 => "REAL",
            ParamTy::I64 => "INT",
            ParamTy::Probe | ParamTy::ProbeCow => "PROBE",
            ParamTy::SocketAddr => "IP",
            ParamTy::Str | ParamTy::CStr => "STRING",
        }
    }

    pub fn to_c_type(self) -> (r: &'static str)
        ensures
            r@ == spec_param_c_type(self),
    {
        match self {
            ParamTy::Bool => "VCL_BOOL",
            ParamTy::Duration => "VCL_DURATION",
            ParamTy::F64 => "VCL_REAL",
            ParamTy::I64 => "VCL_INT",
            ParamTy::Probe | ParamTy::ProbeCow => "VCL_PROBE",
            ParamTy::SocketAddr => "VCL_IP",
            ParamTy::Str | ParamTy::CStr => "VCL_STRING",
        }
    }

    /// User MUST use some types with `Option`
    pub fn must_be_optional(self) -> (r: bool)
        ensures
            r == spec_must_be_optional(self),
    {
        match self {
            ParamTy::Bool | ParamTy::Duration | ParamTy::F64 | ParamTy::I64 | ParamTy::Str
            | ParamTy::CStr => false,
            ParamTy::Probe | ParamTy::ProbeCow | ParamTy::SocketAddr => true,
        }
    }

    /// Some VCL->Rust conversions require `TryFrom` instead of `From`: only `&str`, because a
    /// C string may hold invalid UTF-8.
    pub fn use_try_from(self) -> (r: bool)
        ensures
            r == (self is Str),
    {
        match self {
            ParamTy::Probe | ParamTy::ProbeCow | ParamTy::SocketAddr | ParamTy::Bool
            | ParamTy::Duration | ParamTy::F64 | ParamTy::I64 | ParamTy::CStr => false,
            ParamTy::Str => true,
        }
    }
}

/// A name of a raw VCL type: `VCL_` followed by upper-case letters and underscores.
pub open spec fn is_vcl_type_name(s: Seq<char>) -> bool {
    &&& s.len() >= 4
    &&& s.take(4) == "VCL_"@
    &&& forall|i: int| 0 <= i < s.len() ==> (('A' <= #[trigger] s[i] && s[i] <= 'Z') || s[i] == '_')
}

/// A well-formed output type: a raw VCL type carries a proper VCL type name.
pub open spec fn output_ty_wf(t: OutputTy) -> bool {
    t matches OutputTy::VclType(n) ==> is_vcl_type_name(n@)
}

/// A raw VCL type is named with the `VCL_` prefix, which its VCC name drops.
pub open spec fn output_ty_prefixed(t: OutputTy) -> bool {
    t matches OutputTy::VclType(n) ==> n@.len() >= 4 && n@.take(4) == "VCL_"@
}

/// The name of a raw VCL type starts with four one-byte characters, which its VCC name drops.
pub open spec fn output_ty_sliceable(t: OutputTy) -> bool {
    t matches OutputTy::VclType(n) ==> n@.len() >= 4 && forall|i: int| 0 <= i < 4 ==> (#[trigger] n@[i] as u32) < 128
}

/// The VCC name of a function's output type.
pub open spec fn spec_output_vcc_type(t: OutputTy) -> Seq<char> {
    match t {
        OutputTy::BackendHandle => "BACKEND"@,
        OutputTy::Default | OutputTy::SelfType => "VOID"@,
        OutputTy::ParamType(p) => spec_param_vcc_type(p),
        OutputTy::Bytes | OutputTy::String => "STRING"@,
        OutputTy::VclType(n) => n@.skip(4),
    }
}

/// The C name of a function's output type.
pub open spec fn spec_output_c_type(t: OutputTy) -> Seq<char> {
    match t {
        OutputTy::BackendHandle => "VCL_BACKEND"@,
        OutputTy::ParamType(p) => spec_param_c_type(p),
        OutputTy::Bytes | OutputTy::String => "VCL_STRING"@,
        OutputTy::SelfType | OutputTy::Default => "VCL_VOID"@,
        OutputTy::VclType(n) => n@,
    }
}

impl OutputTy {
    pub fn to_vcc_type(&self) -> (r: String)
        requires
            output_ty_sliceable(*self),
        ensures
            r@ == spec_output_vcc_type(*self),
    {
        match self {
            OutputTy::BackendHandle => "BACKEND".to_owned(),
            OutputTy::Default | OutputTy::SelfType => "VOID".to_owned(),
            OutputTy::ParamType(ty) => ty.to_vcc_type().to_owned(),
            OutputTy::Bytes | OutputTy::String => "STRING".to_owned(),
            OutputTy::VclType(ty) => {
                let cs = crate::text::chars_of(ty.as_str());
                let mut rest: Vec<char> = Vec::new();
                let mut i: usize = 4;
                while i < cs.len()
                    invariant
                        4 <= i <= cs.len(),
                        rest@ == cs@.subrange(4, i as int),
                    decreases cs.len() - i,
                {
                    rest.push(cs[i]);
                    i = i + 1;
                }
                crate::text::string_of(&rest)
            },
        }
    }

    pub fn to_c_type(&self) -> (r: String)
        ensures
            r@ == spec_output_c_type(*self),
    {
        match self {
            OutputTy::BackendHandle => "VCL_BACKEND".to_owned(),
            OutputTy::ParamType(ty) => ty.to_c_type().to_owned(),
            OutputTy::Bytes | OutputTy::String => "VCL_STRING".to_owned(),
            OutputTy::SelfType | OutputTy::Default => "VCL_VOID".to_owned(),
            OutputTy::VclType(ty) => ty.clone(),
        }
    }
}

/// A well-formed output type has the `VCL_` prefix, and a prefixed one can drop it.
pub proof fn lemma_wf_prefixed(t: OutputTy)
    requires
        output_ty_wf(t),
    ensures
        output_ty_prefixed(t),
        output_ty_sliceable(t),
{
    lemma_prefixed_sliceable(t);
}

/// A name with the `VCL_` prefix starts with four one-byte characters.
pub proof fn lemma_prefixed_sliceable(t: OutputTy)
    requires
        output_ty_prefixed(t),
    ensures
        output_ty_sliceable(t),
{
    reveal_strlit("VCL_");
    if let OutputTy::VclType(n) = t {
        assert forall|i: int| 0 <= i < 4 implies (#[trigger] n@[i] as u32) < 128 by {
            assert(n@[i] == n@.take(4)[i]);
        }
    }
}

/// The C name of an output type is its VCC name behind `VCL_`.
pub proof fn lemma_output_c_type(t: OutputTy)
    requires
        output_ty_prefixed(t),
    ensures
        spec_output_c_type(t) == "VCL_"@ + spec_output_vcc_type(t),
{
    reveal_strlit("VCL_");
    match t {
        OutputTy::VclType(n) => {
            assert(n@ =~= n@.take(4) + n@.skip(4));
        },
        OutputTy::BackendHandle => {
            reveal_strlit("VCL_BACKEND");
            reveal_strlit("BACKEND");
            assert(spec_output_c_type(t) =~= "VCL_"@ + spec_output_vcc_type(t));
        },
        OutputTy::Default | OutputTy::SelfType => {
            reveal_strlit("VCL_VOID");
            reveal_strlit("VOID");
            assert(spec_output_c_type(t) =~= "VCL_"@ + spec_output_vcc_type(t));
        },
        OutputTy::Bytes | OutputTy::String => {
            reveal_strlit("VCL_STRING");
            reveal_strlit("STRING");
            assert(spec_output_c_type(t) =~= "VCL_"@ + spec_output_vcc_type(t));
        },
        OutputTy::ParamType(p) => {
            reveal_strlit("VCL_BOOL"); reveal_strlit("BOOL");
            reveal_strlit("VCL_DURATION"); reveal_strlit("DURATION");
            reveal_strlit("VCL_REAL"); reveal_strlit("REAL");
            reveal_strlit("VCL_INT"); reveal_strlit("INT");
            reveal_strlit("VCL_PROBE"); reveal_strlit("PROBE");
            reveal_strlit("VCL_IP"); reveal_strlit("IP");
            reveal_strlit("VCL_STRING"); reveal_strlit("STRING");
            assert(spec_output_c_type(t) =~= "VCL_"@ + spec_output_vcc_type(t));
        },
    }
}

/// The type shared per VCL load, `()` when there is none.
pub open spec fn spec_per_vcl_ty(s: SharedTypes) -> Seq<char> {
    match s.shared_per_vcl_ty {
        Some(t) => t@,
        None => "()"@,
    }
}

impl SharedTypes {
    pub fn new() -> (r: Self)
        ensures
            r.shared_per_task_ty is None,
            r.shared_per_vcl_ty is None,
    {
        SharedTypes { shared_per_task_ty: None, shared_per_vcl_ty: None }
    }

    pub fn get_per_vcl_ty(&self) -> (r: &str)
        ensures
            r@ == spec_per_vcl_ty(*self),
    {
        match &self.shared_per_vcl_ty {
            Some(t) => t.as_str(),
            None => "()",
        }
    }
}

/// A selection of functions, counted by [`VmodInfo::count_funcs`].
#[derive(Debug, Clone, Copy)]
pub enum FuncFilter {
    /// Event handlers
    Event,
    /// Functions that take the state shared per VCL load, mutably or as filter registries
    UsesSharedPerVcl,
}

/// A selection of arguments, counted by [`FuncInfo::count_args`] and [`VmodInfo::count_args`].
#[derive(Debug, Clone, Copy)]
pub enum ArgFilter {
    SharedPerVclMut,
    SharedPerVclRef,
    /// `SharedPerVclMut`, `FetchFilters` or `DeliveryFilters`: the arguments that need the state
    /// shared per VCL load
    NeedsPerVcl,
}

pub open spec fn arg_selected(f: ArgFilter, t: ParamType) -> bool {
    match f {
        ArgFilter::SharedPerVclMut => t is SharedPerVclMut,
        ArgFilter::SharedPerVclRef => t is SharedPerVclRef,
        ArgFilter::NeedsPerVcl => t is SharedPerVclMut || t is FetchFilters || t is DeliveryFilters,
    }
}

/// Number of arguments of `args` that `f` selects.
pub open spec fn count_args_in(args: Seq<ParamTypeInfo>, f: ArgFilter) -> nat
    decreases args.len(),
{
    if args.len() == 0 {
        0
    } else {
        count_args_in(args.drop_last(), f) + if arg_selected(f, args.last().ty) { 1nat } else { 0nat }
    }
}

/// The function takes the state shared per VCL load.
pub open spec fn spec_uses_shared_per_vcl(fi: FuncInfo) -> bool {
    count_args_in(fi.args@, ArgFilter::NeedsPerVcl) > 0
}

pub open spec fn func_selected(f: FuncFilter, fi: FuncInfo) -> bool {
    match f {
        FuncFilter::Event => fi.func_type is Event,
        FuncFilter::UsesSharedPerVcl => spec_uses_shared_per_vcl(fi),
    }
}

/// All the functions of an object: its methods, then its constructor and its destructor.
pub open spec fn obj_funcs(o: ObjInfo) -> Seq<FuncInfo> {
    o.funcs@ + seq![o.constructor, o.destructor]
}

/// All the functions of the objects, object after object.
pub open spec fn objects_funcs(objs: Seq<ObjInfo>) -> Seq<FuncInfo>
    decreases objs.len(),
{
    if objs.len() == 0 {
        seq![]
    } else {
        objects_funcs(objs.drop_last()) + obj_funcs(objs.last())
    }
}

/// All the functions of a VMOD: the free functions, then those of every object.
pub open spec fn all_funcs(v: VmodInfo) -> Seq<FuncInfo> {
    v.funcs@ + objects_funcs(v.objects@)
}

/// Number of functions of `fs` that `f` selects.
pub open spec fn count_funcs_in(fs: Seq<FuncInfo>, f: FuncFilter) -> nat
    decreases fs.len(),
{
    if fs.len() == 0 {
        0
    } else {
        count_funcs_in(fs.drop_last(), f) + if func_selected(f, fs.last()) { 1nat } else { 0nat }
    }
}

/// Total number of arguments selected by `f` over the functions of `fs`.
pub open spec fn sum_args_in(fs: Seq<FuncInfo>, f: ArgFilter) -> nat
    decreases fs.len(),
{
    if fs.len() == 0 {
        0
    } else {
        sum_args_in(fs.drop_last(), f) + count_args_in(fs.last().args@, f)
    }
}

pub proof fn lemma_count_funcs_concat(a: Seq<FuncInfo>, b: Seq<FuncInfo>, f: FuncFilter)
    ensures
        count_funcs_in(a + b, f) == count_funcs_in(a, f) + count_funcs_in(b, f),
    decreases b.len(),
{
    if b.len() == 0 {
        assert(a + b =~= a);
    } else {
        lemma_count_funcs_concat(a, b.drop_last(), f);
        assert((a + b).drop_last() =~= a + b.drop_last());
    }
}

pub proof fn lemma_sum_args_concat(a: Seq<FuncInfo>, b: Seq<FuncInfo>, f: ArgFilter)
    ensures
        sum_args_in(a + b, f) == sum_args_in(a, f) + sum_args_in(b, f),
    decreases b.len(),
{
    if b.len() == 0 {
        assert(a + b =~= a);
    } else {
        lemma_sum_args_concat(a, b.drop_last(), f);
        assert((a + b).drop_last() =~= a + b.drop_last());
    }
}

/// Counts the arguments of `args` that `f` selects.
fn count_selected_args(args: &Vec<ParamTypeInfo>, f: ArgFilter) -> (n: usize)
    ensures
        n == count_args_in(args@, f),
{
    let mut n: usize = 0;
    let mut i: usize = 0;
    while i < args.len()
        invariant
            i <= args.len(),
            n == count_args_in(args@.take(i as int), f),
            n <= i,
        decreases args.len() - i,
    {
        assert(args@.take((i + 1) as int).drop_last() =~= args@.take(i as int));
        let sel = match f {
            ArgFilter::SharedPerVclMut => matches!(args[i].ty, ParamType::SharedPerVclMut),
            ArgFilter::SharedPerVclRef => matches!(args[i].ty, ParamType::SharedPerVclRef),
            ArgFilter::NeedsPerVcl => matches!(
                args[i].ty,
                ParamType::SharedPerVclMut | ParamType::FetchFilters | ParamType::DeliveryFilters
            ),
        };
        if sel {
            n = n + 1;
        }
        i = i + 1;
    }
    assert(args@.take(args.len() as int) =~= args@);
    n
}

impl FuncInfo {
    /// Number of arguments that `filter` selects.
    pub fn count_args(&self, filter: ArgFilter) -> (n: usize)
        ensures
            n == count_args_in(self.args@, filter),
    {
        count_selected_args(&self.args, filter)
    }

    /// Whether this function takes the state shared per VCL load.
    pub fn use_shared_per_vcl(&self) -> (r: bool)
        ensures
            r == spec_uses_shared_per_vcl(*self),
    {
        self.count_args(ArgFilter::NeedsPerVcl) > 0
    }

    fn selected(&self, f: FuncFilter) -> (r: bool)
        ensures
            r == func_selected(f, *self),
    {
        match f {
            FuncFilter::Event => matches!(self.func_type, FuncType::Event),
            FuncFilter::UsesSharedPerVcl => self.use_shared_per_vcl(),
        }
    }
}

/// Counts the functions of `fs` that `f` selects, adding them to `acc`.
fn count_selected_funcs(fs: &Vec<FuncInfo>, f: FuncFilter) -> (n: usize)
    ensures
        n == count_funcs_in(fs@, f),
{
    let mut n: usize = 0;
    let mut i: usize = 0;
    while i < fs.len()
        invariant
            i <= fs.len(),
            n == count_funcs_in(fs@.take(i as int), f),
            n <= i,
        decreases fs.len() - i,
    {
        assert(fs@.take((i + 1) as int).drop_last() =~= fs@.take(i as int));
        if fs[i].selected(f) {
            n = n + 1;
        }
        i = i + 1;
    }
    assert(fs@.take(fs.len() as int) =~= fs@);
    n
}

/// Sums the selected arguments over the functions of `fs`.
fn sum_selected_args(fs: &Vec<FuncInfo>, f: ArgFilter) -> (n: u64)
    requires
        sum_args_in(fs@, f) <= u64::MAX,
    ensures
        n == sum_args_in(fs@, f),
{
    let mut n: u64 = 0;
    let mut i: usize = 0;
    while i < fs.len()
        invariant
            i <= fs.len(),
            n == sum_args_in(fs@.take(i as int), f),
            sum_args_in(fs@, f) <= u64::MAX,
        decreases fs.len() - i,
    {
        assert(fs@.take((i + 1) as int).drop_last() =~= fs@.take(i as int));
        proof {
            lemma_sum_args_concat(fs@.take(i + 1), fs@.skip(i + 1), f);
            assert(fs@.take(i + 1) + fs@.skip(i + 1) =~= fs@);
        }
        let c = fs[i].count_args(f);
        n = n + c as u64;
        i = i + 1;
    }
    assert(fs@.take(fs.len() as int) =~= fs@);
    n
}

pub proof fn lemma_count_funcs_bound(fs: Seq<FuncInfo>, f: FuncFilter)
    ensures
        count_funcs_in(fs, f) <= fs.len(),
    decreases fs.len(),
{
    if fs.len() > 0 {
        lemma_count_funcs_bound(fs.drop_last(), f);
    }
}

proof fn lemma_objects_funcs_push(objs: Seq<ObjInfo>, o: ObjInfo)
    ensures
        objects_funcs(objs.push(o)) == objects_funcs(objs) + obj_funcs(o),
{
    assert(objs.push(o).drop_last() =~= objs);
}

impl ObjInfo {
    /// Counts the selected functions among the methods, the constructor and the destructor.
    fn count_funcs(&self, f: FuncFilter) -> (n: usize)
        requires
            obj_funcs(*self).len() <= usize::MAX,
        ensures
            n == count_funcs_in(obj_funcs(*self), f),
    {
        let a = count_selected_funcs(&self.funcs, f);
        let b: usize = if self.constructor.selected(f) { 1 } else { 0 };
        let c: usize = if self.destructor.selected(f) { 1 } else { 0 };
        proof {
            let s = seq![self.constructor, self.destructor];
            lemma_count_funcs_concat(self.funcs@, s, f);
            assert(s.drop_last() =~= seq![self.constructor]);
            assert(s.drop_last().drop_last() =~= Seq::<FuncInfo>::empty());
            lemma_count_funcs_bound(self.funcs@, f);
            reveal_with_fuel(count_funcs_in, 3);
        }
        a + b + c
    }

    /// Sums the selected arguments over the methods, the constructor and the destructor.
    fn count_args(&self, f: ArgFilter) -> (n: u64)
        requires
            sum_args_in(obj_funcs(*self), f) <= u64::MAX,
        ensures
            n == sum_args_in(obj_funcs(*self), f),
    {
        proof {
            let s = seq![self.constructor, self.destructor];
            lemma_sum_args_concat(self.funcs@, s, f);
            assert(s.drop_last() =~= seq![self.constructor]);
            assert(s.drop_last().drop_last() =~= Seq::<FuncInfo>::empty());
            reveal_with_fuel(sum_args_in, 3);
        }
        let a = sum_selected_args(&self.funcs, f);
        let b = self.constructor.count_args(f);
        let c = self.destructor.count_args(f);
        a + b as u64 + c as u64
    }
}

impl VmodInfo {
    /// Number of functions, over the free functions and those of every object, that `filter`
    /// selects.
    pub fn count_funcs(&self, filter: FuncFilter) -> (n: usize)
        requires
            all_funcs(*self).len() <= usize::MAX,
        ensures
            n == count_funcs_in(all_funcs(*self), filter),
    {
        let mut n = count_selected_funcs(&self.funcs, filter);
        proof {
            lemma_count_funcs_bound(self.funcs@, filter);
        }
        let mut i: usize = 0;
        while i < self.objects.len()
            invariant
                i <= self.objects.len(),
                all_funcs(*self).len() <= usize::MAX,
                n == count_funcs_in(self.funcs@ + objects_funcs(self.objects@.take(i as int)), filter),
                n <= (self.funcs@ + objects_funcs(self.objects@.take(i as int))).len(),
            decreases self.objects.len() - i,
        {
            let ghost pre = self.funcs@ + objects_funcs(self.objects@.take(i as int));
            proof {
                assert(self.objects@.take(i + 1) =~= self.objects@.take(i as int).push(self.objects@[i as int]));
                lemma_objects_funcs_push(self.objects@.take(i as int), self.objects@[i as int]);
                assert(pre + obj_funcs(self.objects@[i as int]) =~= self.funcs@ + objects_funcs(self.objects@.take(i + 1)));
                lemma_objects_funcs_prefix_len(self.objects@, i + 1);
                lemma_count_funcs_concat(pre, obj_funcs(self.objects@[i as int]), filter);
                lemma_count_funcs_bound(obj_funcs(self.objects@[i as int]), filter);
            }
            let c = self.objects[i].count_funcs(filter);
            n = n + c;
            i = i + 1;
        }
        assert(self.objects@.take(self.objects.len() as int) =~= self.objects@);
        n
    }

    /// Total number of arguments, over all functions, that `filter` selects.
    pub fn count_args(&self, filter: ArgFilter) -> (n: u64)
        requires
            sum_args_in(all_funcs(*self), filter) <= u64::MAX,
        ensures
            n == sum_args_in(all_funcs(*self), filter),
    {
        proof {
            lemma_sum_args_concat(self.funcs@, objects_funcs(self.objects@), filter);
        }
        let mut n = sum_selected_args(&self.funcs, filter);
        let mut i: usize = 0;
        while i < self.objects.len()
            invariant
                i <= self.objects.len(),
                sum_args_in(all_funcs(*self), filter) <= u64::MAX,
                n == sum_args_in(self.funcs@ + objects_funcs(self.objects@.take(i as int)), filter),
            decreases self.objects.len() - i,
        {
            let ghost pre = self.funcs@ + objects_funcs(self.objects@.take(i as int));
            proof {
                assert(self.objects@.take(i + 1) =~= self.objects@.take(i as int).push(self.objects@[i as int]));
                lemma_objects_funcs_push(self.objects@.take(i as int), self.objects@[i as int]);
                assert(pre + obj_funcs(self.objects@[i as int]) =~= self.funcs@ + objects_funcs(self.objects@.take(i + 1)));
                lemma_sum_args_concat(pre, obj_funcs(self.objects@[i as int]), filter);
                lemma_sum_args_prefix(self.funcs@, self.objects@, i + 1, filter);
            }
            let c = self.objects[i].count_args(filter);
            n = n + c;
            i = i + 1;
        }
        assert(self.objects@.take(self.objects.len() as int) =~= self.objects@);
        n
    }

    /// Whether any function takes the state shared per VCL load.
    pub fn use_shared_per_vcl(&self) -> (r: bool)
        ensures
            r == (count_funcs_in(all_funcs(*self), FuncFilter::UsesSharedPerVcl) > 0),
    {
        let f = FuncFilter::UsesSharedPerVcl;
        proof {
            lemma_objects_funcs_split(self.objects@, 0);
            assert(self.objects@.take(0) =~= Seq::<ObjInfo>::empty());
            assert(self.objects@.skip(0) =~= self.objects@);
            lemma_count_funcs_concat(self.funcs@, objects_funcs(self.objects@), f);
        }
        if any_selected(&self.funcs, f) {
            return true;
        }
        let mut i: usize = 0;
        while i < self.objects.len()
            invariant
                i <= self.objects.len(),
                count_funcs_in(self.funcs@ + objects_funcs(self.objects@.take(i as int)), f) == 0,
                f == FuncFilter::UsesSharedPerVcl,
            decreases self.objects.len() - i,
        {
            let ghost pre = self.funcs@ + objects_funcs(self.objects@.take(i as int));
            let o = &self.objects[i];
            proof {
                assert(self.objects@.take(i + 1) =~= self.objects@.take(i as int).push(self.objects@[i as int]));
                lemma_objects_funcs_push(self.objects@.take(i as int), self.objects@[i as int]);
                assert(pre + obj_funcs(*o) =~= self.funcs@ + objects_funcs(self.objects@.take(i + 1)));
                lemma_count_funcs_concat(pre, obj_funcs(*o), f);
                let s2 = seq![o.constructor, o.destructor];
                lemma_count_funcs_concat(o.funcs@, s2, f);
                assert(s2.drop_last() =~= seq![o.constructor]);
                assert(s2.drop_last().drop_last() =~= Seq::<FuncInfo>::empty());
                reveal_with_fuel(count_funcs_in, 3);
                lemma_objects_funcs_split(self.objects@, i + 1);
                lemma_count_funcs_concat(self.funcs@ + objects_funcs(self.objects@.take(i + 1)), objects_funcs(self.objects@.skip(i + 1)), f);
                assert(self.funcs@ + objects_funcs(self.objects@) =~= (self.funcs@ + objects_funcs(self.objects@.take(i + 1))) + objects_funcs(self.objects@.skip(i + 1)));
            }
            let a = any_selected(&o.funcs, f);
            let b = o.constructor.selected(f);
            let c = o.destructor.selected(f);
            if a || b || c {
                proof {
                    let s2 = seq![o.constructor, o.destructor];
                    assert(count_funcs_in(s2, f) == (if b { 1nat } else { 0nat }) + (if c { 1nat } else { 0nat }));
                    assert(count_funcs_in(obj_funcs(*o), f) > 0);
                    let aa = self.funcs@ + objects_funcs(self.objects@.take(i + 1));
                    let bb = objects_funcs(self.objects@.skip(i + 1));
                    assert(count_funcs_in(aa, f) > 0);
                    lemma_objects_funcs_split(self.objects@, i + 1);
                    lemma_count_funcs_concat(aa, bb, f);
                    assert(all_funcs(*self) =~= aa + bb);
                    assert(count_funcs_in(all_funcs(*self), f) > 0);
                }
                return true;
            }
            i = i + 1;
        }
        assert(self.objects@.take(self.objects.len() as int) =~= self.objects@);
        false
    }
}

/// Whether some function of `fs` is one that `f` selects.
fn any_selected(fs: &Vec<FuncInfo>, f: FuncFilter) -> (r: bool)
    ensures
        r == (count_funcs_in(fs@, f) > 0),
{
    let mut i: usize = 0;
    while i < fs.len()
        invariant
            i <= fs.len(),
            count_funcs_in(fs@.take(i as int), f) == 0,
        decreases fs.len() - i,
    {
        assert(fs@.take(i + 1).drop_last() =~= fs@.take(i as int));
        if fs[i].selected(f) {
            proof {
                lemma_count_funcs_concat(fs@.take(i + 1), fs@.skip(i + 1), f);
                assert(fs@.take(i + 1) + fs@.skip(i + 1) =~= fs@);
            }
            return true;
        }
        i = i + 1;
    }
    assert(fs@.take(fs.len() as int) =~= fs@);
    false
}

proof fn lemma_objects_funcs_split(objs: Seq<ObjInfo>, k: int)
    requires
        0 <= k <= objs.len(),
    ensures
        objects_funcs(objs) == objects_funcs(objs.take(k)) + objects_funcs(objs.skip(k)),
    decreases objs.len(),
{
    if k == objs.len() {
        assert(objs.take(k) =~= objs);
        assert(objs.skip(k) =~= Seq::<ObjInfo>::empty());
        assert(objects_funcs(objs) + Seq::<FuncInfo>::empty() =~= objects_funcs(objs));
    } else {
        lemma_objects_funcs_split(objs.drop_last(), k);
        assert(objs.drop_last().take(k) =~= objs.take(k));
        assert(objs.skip(k).drop_last() =~= objs.drop_last().skip(k));
        assert(objs.skip(k).last() == objs.last());
        assert(objects_funcs(objs.skip(k)) == objects_funcs(objs.skip(k).drop_last()) + obj_funcs(objs.skip(k).last()));
        assert(objects_funcs(objs) =~= objects_funcs(objs.take(k)) + objects_funcs(objs.skip(k)));
    }
}

proof fn lemma_objects_funcs_prefix_len(objs: Seq<ObjInfo>, k: int)
    requires
        0 <= k <= objs.len(),
    ensures
        objects_funcs(objs.take(k)).len() <= objects_funcs(objs).len(),
    decreases objs.len() - k,
{
    if k < objs.len() {
        lemma_objects_funcs_prefix_len(objs, k + 1);
        assert(objs.take(k + 1) =~= objs.take(k).push(objs[k]));
        lemma_objects_funcs_push(objs.take(k), objs[k]);
    } else {
        assert(objs.take(k) =~= objs);
    }
}

proof fn lemma_sum_args_prefix(fs: Seq<FuncInfo>, objs: Seq<ObjInfo>, k: int, f: ArgFilter)
    requires
        0 <= k <= objs.len(),
    ensures
        sum_args_in(fs + objects_funcs(objs.take(k)), f) <= sum_args_in(fs + objects_funcs(objs), f),
    decreases objs.len() - k,
{
    if k < objs.len() {
        lemma_sum_args_prefix(fs, objs, k + 1, f);
        assert(objs.take(k + 1) =~= objs.take(k).push(objs[k]));
        lemma_objects_funcs_push(objs.take(k), objs[k]);
        assert(fs + objects_funcs(objs.take(k + 1)) =~= (fs + objects_funcs(objs.take(k))) + obj_funcs(objs[k]));
        lemma_sum_args_concat(fs + objects_funcs(objs.take(k)), obj_funcs(objs[k]), f);
    } else {
        assert(objs.take(k) =~= objs);
    }
}

} // verus!
