//! The VCL context's plain parts: log tags and VCL events.
use vstd::prelude::*;
use crate::vsc::first_nul;

verus! {

/// The numbers the running Varnish gives the log tags that [`LogTag`] names.
#[derive(Debug, Clone, Copy)]
pub struct VslTags {
    pub debug: u32,
    pub error: u32,
    pub vcl_error: u32,
    pub fetch_error: u32,
    pub backend_health: u32,
    pub vcl_log: u32,
}

/// VSL logging tag
///
/// Only the most current tags (for vmod writers) are named, and [`LogTag::Any`] passes a native
/// tag code through.
#[derive(Debug, Clone, Copy)]
pub enum LogTag {
    Debug,
    Error,
    VclError,
    FetchError,
    BackendHealth,
    VclLog,
    Any(u32),
}

pub open spec fn spec_tag_code(t: LogTag, tags: VslTags) -> u32 {
    match t {
        LogTag::Debug => tags.debug,
        LogTag::Error => tags.error,
        LogTag::VclError => tags.vcl_error,
        LogTag::FetchError => tags.fetch_error,
        LogTag::BackendHealth => tags.backend_health,
        LogTag::VclLog => tags.vcl_log,
        LogTag::Any(n) => n,
    }
}

impl LogTag {
    /// The native code of the tag.
    pub fn into_u32(&self, tags: &VslTags) -> (r: u32)
        ensures
            r == spec_tag_code(*self, *tags),
    {
        match self {
            LogTag::Debug => tags.debug,
            LogTag::Error => tags.error,
            LogTag::VclError => tags.vcl_error,
            LogTag::FetchError => tags.fetch_error,
            LogTag::BackendHealth => tags.backend_health,
            LogTag::VclLog => tags.vcl_log,
            LogTag::Any(n) => *n,
        }
    }
}

/// Qualify a VCL phase, mainly consumed by vmod `event` functions.
#[derive(Debug, Clone, Copy, PartialEq, Eq, Structural)]
pub enum Event {
    Load,
    Warm,
    Cold,
    Discard,
}

/// The phases in the order of their C codes, from 0.
pub open spec fn spec_event_of(code: u32) -> Event {
    if code == 0 {
        Event::Load
    } else if code == 1 {
        Event::Warm
    } else if code == 2 {
        Event::Cold
    } else {
        Event::Discard
    }
}

impl Event {
    /// The event for a C `vcl_event_e` code: `VCL_EVENT_LOAD`, `VCL_EVENT_WARM`,
    /// `VCL_EVENT_COLD` and `VCL_EVENT_DISCARD` are 0 to 3.
    pub fn new(event: u32) -> (r: Self)
        requires
            event < 4,
        ensures
            r == spec_event_of(event),
    {
        if event == 0 {
            Event::Load
        } else if event == 1 {
            Event::Warm
        } else if event == 2 {
            Event::Cold
        } else {
            Event::Discard
        }
    }
}

/// A message for the log, as the C side takes it: text without a NUL character.
pub struct Loggable {
    text: String,
}

impl View for Loggable {
    type V = Seq<char>;

    closed spec fn view(&self) -> Seq<char> {
        self.text@
    }
}

/// The text logged for the message `s`: the message itself, or, when it holds a NUL and cannot
/// be handed over, a notice saying so.
pub open spec fn spec_loggable(s: Seq<char>) -> Seq<char> {
    if first_nul(s) is None {
        s
    } else {
        "Internal Error: message contains null bytes and cannot be shown"@
    }
}

pub(crate) fn has_nul(s: &str) -> (r: bool)
    ensures
        r == (first_nul(s@) is Some),
{
    let chars = crate::text::chars_of(s);
    let mut i: usize = 0;
    while i < chars.len()
        invariant
            chars@ == s@,
            i <= chars.len(),
            first_nul(s@.take(i as int)) is None,
        decreases chars.len() - i,
    {
        assert(s@.take(i + 1).drop_last() =~= s@.take(i as int));
        if chars[i] == '\0' {
            proof {
                lemma_first_nul_extends(s@, i as int);
            }
            return true;
        }
        i = i + 1;
    }
    assert(s@.take(s@.len() as int) =~= s@);
    false
}

proof fn lemma_first_nul_extends(s: Seq<char>, i: int)
    requires
        0 <= i < s.len(),
        s[i] == '\0',
        first_nul(s.take(i)) is None,
    ensures
        first_nul(s) is Some,
    decreases s.len(),
{
    if i < s.len() - 1 {
        assert(s.drop_last().take(i) =~= s.take(i));
        lemma_first_nul_extends(s.drop_last(), i);
    } else {
        assert(s.drop_last() =~= s.take(i));
    }
}

impl Loggable {
    /// The message `s` for the log.
    pub fn from_str(s: &str) -> (r: Self)
        ensures
            r@ == spec_loggable(s@),
    {
        if has_nul(s) {
            Loggable { text: "Internal Error: message contains null bytes and cannot be shown".to_string() }
        } else {
            Loggable { text: s.to_string() }
        }
    }

    /// The message `s` for the log.
    pub fn from_string(s: String) -> (r: Self)
        ensures
            r@ == spec_loggable(s@),
    {
        Loggable::from_str(s.as_str())
    }

    /// The text handed to the log.
    pub fn as_str(&self) -> (r: &str)
        ensures
            r@ == self@,
    {
        self.text.as_str()
    }
}

} // verus!
