//! A plain model of the parts of Rust syntax that the VMOD parser reads: types, attributes and
//! literals, with the helpers that recognize the shapes the parser accepts.
use vstd::prelude::*;
use crate::text::str_eq;

verus! {

/// A source location, as an index into the table of spans kept by the caller.
pub type SpanId = usize;

/// A type, as written in the source.
#[derive(Debug)]
pub struct Ty {
    pub kind: TyKind,
    /// The tokens of the type, with every lifetime written as `'_`
    pub text: String,
    pub span: SpanId,
}

#[derive(Debug)]
pub enum TyKind {
    /// A path such as `Option<&str>` or `<T as Trait>::Assoc`
    Path { qself: bool, leading_colon: bool, segments: Vec<PathSegment> },
    /// `&T` or `&mut T`
    Reference { mutable: bool, elem: Box<Ty> },
    /// `[T]`
    Slice { elem: Box<Ty> },
    /// `(A, B, ...)`
    Tuple { elems: Vec<Ty> },
    /// Any other kind of type
    Other,
}

#[derive(Debug)]
pub struct PathSegment {
    pub ident: String,
    pub args: PathArgs,
}

#[derive(Debug)]
pub enum PathArgs {
    Plain,
    /// `<...>`
    AngleBracketed(Vec<GenericArg>),
    /// `(...)`
    Parenthesized,
}

#[derive(Debug)]
pub enum GenericArg {
    Type(Ty),
    Lifetime,
    Other,
}

/// An attribute, such as `#[default(5)]` or `/// docs`.
#[derive(Debug)]
pub struct Attr {
    /// The attribute's path, when it is a single identifier
    pub ident: Option<String>,
    pub meta: AttrMeta,
    /// Position of the attribute in the source's list of attributes
    pub orig: usize,
    pub span: SpanId,
}

#[derive(Debug)]
pub enum AttrMeta {
    /// `#[name]`; `last_plain` tells that the path's last segment has no arguments
    Path { last_plain: bool },
    /// `#[name(...)]`: the items of the list, or the error met while reading them
    List { items: Result<Vec<NestedMeta>, Diag> },
    /// `#[name = value]`; the value when it is a string literal
    NameValue { str_value: Option<String> },
}

#[derive(Debug)]
pub enum NestedMeta {
    Lit(LitValue),
    /// Any other item; `path` holds the identifier when the item is a bare path of one
    /// identifier, like `C` in `#[repr(C)]`
    Meta { path: Option<String> },
}

/// A literal.
#[derive(Debug)]
pub enum LitValue {
    Str(String),
    CStr(String),
    /// An integer literal, with its text as written
    Int { text: String },
    /// A float literal, with its text as written
    Float { text: String },
    Bool(bool),
    Other,
}

/// The span of the macro invocation itself, for diagnostics that belong to no part of the source.
pub const CALL_SITE: SpanId = 0;

/// Whether a piece of text parses as a Rust type.
pub uninterp spec fn spec_type_text_parses(s: Seq<char>) -> bool;

/// `syn::parse_str::<syn::Type>`: whether the text parses as a Rust type.
#[verifier::external_body]
pub(crate) fn type_text_parses(s: &str) -> (r: bool)
    ensures
        r == spec_type_text_parses(s@),
{
    syn::parse_str::<syn::Type>(s).is_ok()
}

/// One diagnostic: a message attached to a source location.
#[derive(Debug)]
pub struct Diag {
    pub span: SpanId,
    pub msg: String,
}

pub open spec fn diag(span: SpanId, msg: Seq<char>) -> (Seq<(SpanId, Seq<char>)>) {
    seq![(span, msg)]
}

// ---------------------------------------------------------------------------------------------
// Shapes of types

/// The identifier of a type that is a single plain identifier, like `i64` or `Ctx`.
pub open spec fn spec_simple_ident(t: Ty) -> Option<Seq<char>> {
    match t.kind {
        TyKind::Path { qself, leading_colon, segments } =>
            if !qself && !leading_colon && segments@.len() == 1 && segments@[0].args is Plain {
                Some(segments@[0].ident@)
            } else {
                None
            },
        _ => None,
    }
}

/// The single generic argument of a path type whose last segment is `name<...>`.
pub open spec fn spec_one_gen_arg(t: Ty, name: Seq<char>) -> Option<GenericArg> {
    match t.kind {
        TyKind::Path { segments, .. } =>
            if segments@.len() > 0 && segments@.last().ident@ == name {
                match segments@.last().args {
                    PathArgs::AngleBracketed(args) => if args@.len() == 1 {
                        Some(args@[0])
                    } else {
                        None
                    },
                    _ => None,
                }
            } else {
                None
            },
        _ => None,
    }
}

/// The type argument of `name<T>`.
pub open spec fn spec_one_gen_type(t: Ty, name: Seq<char>) -> Option<Ty> {
    match spec_one_gen_arg(t, name) {
        Some(GenericArg::Type(inner)) => Some(inner),
        _ => None,
    }
}

/// The `Ok` type of `Result<Ok, Err>`.
pub open spec fn spec_result_type(t: Ty) -> Option<Ty> {
    match t.kind {
        TyKind::Path { segments, .. } =>
            if segments@.len() > 0 && segments@.last().ident@ == "Result"@ {
                match segments@.last().args {
                    PathArgs::AngleBracketed(args) => if args@.len() == 2 {
                        match args@[0] {
                            GenericArg::Type(ok) => Some(ok),
                            _ => None,
                        }
                    } else {
                        None
                    },
                    _ => None,
                }
            } else {
                None
            },
        _ => None,
    }
}

pub open spec fn spec_ref_ty(t: Ty) -> Option<Ty> {
    match t.kind {
        TyKind::Reference { mutable, elem } => if !mutable { Some(*elem) } else { None },
        _ => None,
    }
}

pub open spec fn spec_ref_mut_ty(t: Ty) -> Option<Ty> {
    match t.kind {
        TyKind::Reference { mutable, elem } => if mutable { Some(*elem) } else { None },
        _ => None,
    }
}

pub open spec fn spec_slice_ty(t: Ty) -> Option<Ty> {
    match t.kind {
        TyKind::Slice { elem } => Some(*elem),
        _ => None,
    }
}

/// The value behind an optional reference.
pub open spec fn deref_opt<T>(r: Option<&T>) -> Option<T> {
    match r {
        Some(x) => Some(*x),
        None => None,
    }
}

/// Try to get the ident of a simple type, or return None if it's not a simple type.
pub fn as_simple_ty(ty: &Ty) -> (r: Option<&String>)
    ensures
        match r {
            Some(s) => spec_simple_ident(*ty) == Some(s@),
            None => spec_simple_ident(*ty) is None,
        },
{
    match &ty.kind {
        TyKind::Path { qself, leading_colon, segments } => {
            if !*qself && !*leading_colon && segments.len() == 1 && matches!(segments[0].args, PathArgs::Plain) {
                Some(&segments[0].ident)
            } else {
                None
            }
        },
        _ => None,
    }
}

/// Whether `ty` is the simple type `name`.
pub fn is_simple_ty(ty: &Ty, name: &str) -> (r: bool)
    ensures
        r == (spec_simple_ident(*ty) == Some(name@)),
{
    match as_simple_ty(ty) {
        Some(s) => str_eq(s.as_str(), name),
        None => false,
    }
}

/// Get the single generic argument of a type, if it's a generic type `name<...>` with one
/// argument.
pub fn as_one_gen_arg<'a>(ty: &'a Ty, name: &str) -> (r: Option<&'a GenericArg>)
    ensures
        deref_opt(r) == spec_one_gen_arg(*ty, name@),
{
    match &ty.kind {
        TyKind::Path { segments, .. } => {
            if segments.len() > 0 && str_eq(segments[segments.len() - 1].ident.as_str(), name) {
                match &segments[segments.len() - 1].args {
                    PathArgs::AngleBracketed(args) => {
                        if args.len() == 1 {
                            Some(&args[0])
                        } else {
                            None
                        }
                    },
                    _ => None,
                }
            } else {
                None
            }
        },
        _ => None,
    }
}

/// Try to get the inner type of `name<T>` with one argument.
fn as_one_gen_type<'a>(ty: &'a Ty, name: &str) -> (r: Option<&'a Ty>)
    ensures
        deref_opt(r) == spec_one_gen_type(*ty, name@),
{
    match as_one_gen_arg(ty, name) {
        Some(GenericArg::Type(inner)) => Some(inner),
        _ => None,
    }
}

/// Try to get the inner type of the `Option<T>`.
pub fn as_option_type(ty: &Ty) -> (r: Option<&Ty>)
    ensures
        deref_opt(r) == spec_one_gen_type(*ty, "Option"@),
{
    as_one_gen_type(ty, "Option")
}

/// Try to get the inner type of the `Box<T>`.
pub fn as_box_type(ty: &Ty) -> (r: Option<&Ty>)
    ensures
        deref_opt(r) == spec_one_gen_type(*ty, "Box"@),
{
    as_one_gen_type(ty, "Box")
}

/// Try to get the `Ok` type of a `Result<Ok, Err>`.
pub fn as_result_type(ty: &Ty) -> (r: Option<&Ty>)
    ensures
        deref_opt(r) == spec_result_type(*ty),
{
    match &ty.kind {
        TyKind::Path { segments, .. } => {
            if segments.len() > 0 && str_eq(segments[segments.len() - 1].ident.as_str(), "Result") {
                match &segments[segments.len() - 1].args {
                    PathArgs::AngleBracketed(args) => {
                        if args.len() == 2 {
                            match &args[0] {
                                GenericArg::Type(ok) => Some(ok),
                                _ => None,
                            }
                        } else {
                            None
                        }
                    },
                    _ => None,
                }
            } else {
                None
            }
        },
        _ => None,
    }
}

/// Try to get the inner type of the `&T` reference.
pub fn as_ref_ty(ty: &Ty) -> (r: Option<&Ty>)
    ensures
        deref_opt(r) == spec_ref_ty(*ty),
{
    match &ty.kind {
        TyKind::Reference { mutable, elem } => if !*mutable { Some(&**elem) } else { None },
        _ => None,
    }
}

/// Try to get the inner type of the `&mut T` reference.
pub fn as_ref_mut_ty(ty: &Ty) -> (r: Option<&Ty>)
    ensures
        deref_opt(r) == spec_ref_mut_ty(*ty),
{
    match &ty.kind {
        TyKind::Reference { mutable, elem } => if *mutable { Some(&**elem) } else { None },
        _ => None,
    }
}

/// Try to get the inner type of the `[T]` slice.
pub fn as_slice_ty(ty: &Ty) -> (r: Option<&Ty>)
    ensures
        deref_opt(r) == spec_slice_ty(*ty),
{
    match &ty.kind {
        TyKind::Slice { elem } => Some(&**elem),
        _ => None,
    }
}

// ---------------------------------------------------------------------------------------------
// Attributes

/// The attribute's path is the identifier `name`.
pub open spec fn attr_is(a: Attr, name: Seq<char>) -> bool {
    match a.ident {
        Some(i) => i@ == name,
        None => false,
    }
}

/// Index of the first attribute named `name`.
pub open spec fn spec_find_attr(attrs: Seq<Attr>, name: Seq<char>) -> Option<int>
    decreases attrs.len(),
{
    if attrs.len() == 0 {
        None
    } else {
        match spec_find_attr(attrs.drop_last(), name) {
            Some(i) => Some(i),
            None => if attr_is(attrs.last(), name) { Some(attrs.len() - 1) } else { None },
        }
    }
}

/// The attributes left once the first one named `name` is taken out, the last one taking its
/// place; and the attribute taken out.
pub open spec fn spec_remove_attr(attrs: Seq<Attr>, name: Seq<char>) -> (Seq<Attr>, Option<Attr>) {
    match spec_find_attr(attrs, name) {
        Some(i) => (attrs.update(i, attrs.last()).drop_last(), Some(attrs[i])),
        None => (attrs, None),
    }
}

pub proof fn lemma_find_attr(attrs: Seq<Attr>, name: Seq<char>)
    ensures
        match spec_find_attr(attrs, name) {
            Some(i) => 0 <= i < attrs.len() && attr_is(attrs[i], name)
                && forall|j: int| 0 <= j < i ==> !attr_is(#[trigger] attrs[j], name),
            None => forall|j: int| 0 <= j < attrs.len() ==> !attr_is(#[trigger] attrs[j], name),
        },
    decreases attrs.len(),
{
    if attrs.len() > 0 {
        lemma_find_attr(attrs.drop_last(), name);
        match spec_find_attr(attrs.drop_last(), name) {
            Some(i) => {
                assert forall|j: int| 0 <= j < i implies !attr_is(#[trigger] attrs[j], name) by {
                    assert(attrs[j] == attrs.drop_last()[j]);
                }
            },
            None => {
                assert forall|j: int| 0 <= j < attrs.len() - 1 implies !attr_is(#[trigger] attrs[j], name) by {
                    assert(attrs[j] == attrs.drop_last()[j]);
                }
            },
        }
    }
}

fn attr_named(a: &Attr, name: &str) -> (r: bool)
    ensures
        r == attr_is(*a, name@),
{
    match &a.ident {
        Some(i) => str_eq(i.as_str(), name),
        None => false,
    }
}

/// Index of the first attribute named `name`.
pub fn find_attr_index(attrs: &Vec<Attr>, name: &str) -> (r: Option<usize>)
    ensures
        match r {
            Some(i) => spec_find_attr(attrs@, name@) == Some(i as int) && i < attrs.len(),
            None => spec_find_attr(attrs@, name@) is None,
        },
{
    proof {
        lemma_find_attr(attrs@, name@);
    }
    let mut i: usize = 0;
    while i < attrs.len()
        invariant
            i <= attrs.len(),
            forall|j: int| 0 <= j < i ==> !attr_is(#[trigger] attrs@[j], name@),
        decreases attrs.len() - i,
    {
        if attr_named(&attrs[i], name) {
            proof {
                lemma_find_attr(attrs@, name@);
                match spec_find_attr(attrs@, name@) {
                    Some(k) => {
                        if k < i {
                            assert(!attr_is(attrs@[k], name@));
                        } else if k > i {
                            assert(!attr_is(attrs@[i as int], name@));
                        }
                    },
                    None => {
                        assert(!attr_is(attrs@[i as int], name@));
                    },
                }
            }
            return Some(i);
        }
        i = i + 1;
    }
    proof {
        lemma_find_attr(attrs@, name@);
    }
    None
}

/// Remove an attribute from a list of attributes, returning the attribute if found.
pub fn remove_attr(attrs: &mut Vec<Attr>, name: &str) -> (r: Option<Attr>)
    ensures
        (final(attrs)@, r) == spec_remove_attr(old(attrs)@, name@),
{
    match find_attr_index(attrs, name) {
        Some(i) => Some(attrs.swap_remove(i)),
        None => None,
    }
}

/// Check if a list of attributes has one named `name`.
pub fn has_attr(attrs: &Vec<Attr>, name: &str) -> (r: bool)
    ensures
        r == (spec_find_attr(attrs@, name@) is Some),
{
    find_attr_index(attrs, name).is_some()
}

/// Find an attribute by name.
pub fn find_attr<'a>(attrs: &'a Vec<Attr>, name: &str) -> (r: Option<&'a Attr>)
    ensures
        match spec_find_attr(attrs@, name@) {
            Some(i) => r == Some(&attrs@[i]),
            None => r is None,
        },
{
    match find_attr_index(attrs, name) {
        Some(i) => Some(&attrs[i]),
        None => None,
    }
}

} // verus!
