//! Collecting the diagnostics met while reading a VMOD, to report all of them at once.
use vstd::prelude::*;
use crate::types::{Diag, SpanId};

verus! {

/// A diagnostic, as a span and the characters of its message.
pub type DiagV = (SpanId, Seq<char>);

pub open spec fn diag_view(d: Diag) -> DiagV {
    (d.span, d.msg@)
}

/// The diagnostics of a list, in order.
pub open spec fn diags_view(v: Seq<Diag>) -> Seq<DiagV> {
    v.map_values(|d: Diag| diag_view(d))
}

/// A list of diagnostics, in the order they were met.
#[derive(Debug)]
pub struct Errors {
    errors: Vec<Diag>,
}

/// The result of a parsing step: the value, or every diagnostic met.
pub type ProcResult<T> = Result<T, Errors>;

impl View for Errors {
    type V = Seq<DiagV>;

    closed spec fn view(&self) -> Seq<DiagV> {
        diags_view(self.errors@)
    }
}

/// A single diagnostic at `span` saying `msg`.
pub fn error(span: SpanId, msg: &str) -> (r: Errors)
    ensures
        r@ == seq![(span, msg@)],
{
    let mut r = Errors::new();
    r.add(span, msg);
    r
}

/// A single diagnostic at `span` saying `msg`.
pub fn error_string(span: SpanId, msg: String) -> (r: Errors)
    ensures
        r@ == seq![(span, msg@)],
{
    let mut r = Errors::new();
    r.push(Diag { span, msg });
    r
}

impl Errors {
    pub fn new() -> (r: Self)
        ensures
            r@ == Seq::<DiagV>::empty(),
    {
        let r = Errors { errors: Vec::new() };
        assert(r@ =~= Seq::<DiagV>::empty());
        r
    }

    pub fn is_empty(&self) -> (r: bool)
        ensures
            r == (self@.len() == 0),
    {
        self.errors.len() == 0
    }

    /// The value of an `Ok`; for an `Err`, its diagnostics are added and `None` is returned.
    pub fn on_err<T>(&mut self, result: ProcResult<T>) -> (r: Option<T>)
        ensures
            match result {
                Ok(v) => r == Some(v) && final(self)@ == old(self)@,
                Err(e) => r is None && final(self)@ == old(self)@ + e@,
            },
    {
        match result {
            Ok(val) => Some(val),
            Err(err) => {
                self.combine(err);
                None
            },
        }
    }

    /// Add a diagnostic at `span` saying `msg`.
    pub fn add(&mut self, span: SpanId, msg: &str)
        ensures
            final(self)@ == old(self)@.push((span, msg@)),
    {
        self.push(Diag { span, msg: msg.to_owned() });
    }

    pub fn push(&mut self, err: Diag)
        ensures
            final(self)@ == old(self)@.push(diag_view(err)),
    {
        let ghost before = self.errors@;
        self.errors.push(err);
        assert(diags_view(self.errors@) =~= diags_view(before).push(diag_view(err)));
    }

    /// Append all diagnostics of `other`.
    pub fn combine(&mut self, other: Errors)
        ensures
            final(self)@ == old(self)@ + other@,
    {
        let mut other = other;
        let ghost added = other.errors@;
        let ghost start = self.errors@;
        let mut rest = Vec::new();
        while other.errors.len() > 0
            invariant
                other.errors@ + rest@.reverse() == added,
                self.errors@ == start,
            decreases other.errors.len(),
        {
            let d = other.errors.pop().unwrap();
            rest.push(d);
            assert(other.errors@ + rest@.reverse() =~= added);
        }
        assert(rest@.reverse() =~= added);
        while rest.len() > 0
            invariant
                self.errors@ + rest@.reverse() == start + added,
            decreases rest.len(),
        {
            let d = rest.pop().unwrap();
            let ghost b = self.errors@;
            self.errors.push(d);
            assert(self.errors@ + rest@.reverse() =~= start + added);
        }
        assert(self.errors@ =~= start + added);
        assert(diags_view(start + added) =~= diags_view(start) + diags_view(added));
    }

    /// `Ok` when no diagnostic was met, else all of them.
    pub fn into_result(self) -> (r: Result<(), Errors>)
        ensures
            self@.len() == 0 ==> r is Ok,
            self@.len() > 0 ==> (r matches Err(e) && e@ == self@),
    {
        if self.errors.len() == 0 {
            Ok(())
        } else {
            Err(self)
        }
    }

    /// The diagnostics, for reporting.
    pub fn into_diags(self) -> (r: Vec<Diag>)
        ensures
            diags_view(r@) == self@,
    {
        self.errors
    }
}

} // verus!
