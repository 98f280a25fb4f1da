//! Delivery and fetch processors: what goes between Varnish's C codes and the values a
//! processor hands back.
use vstd::prelude::*;

verus! {

/// Passed to a delivery processor's `push` to describe special conditions occuring in the
/// pipeline.
#[derive(Debug, Copy, Clone, PartialEq, Eq, Structural)]
pub enum PushAction {
    /// Nothing special (`VDP_NULL`)
    Null,
    /// The accompanying buffer will be invalidated
    Flush,
    /// Last call, and last chance to push bytes, implies `Flush`
    End,
}

/// The C codes of the actions: `VDP_NULL`, `VDP_FLUSH` and `VDP_END` are 0, 1 and 2.
pub open spec fn spec_action_code(a: PushAction) -> u32 {
    match a {
        PushAction::Null => 0,
        PushAction::Flush => 1,
        PushAction::End => 2,
    }
}

impl PushAction {
    /// The action a C code stands for, if any.
    pub fn from_code(act: u32) -> (r: Option<Self>)
        ensures
            match r {
                Some(a) => spec_action_code(a) == act,
                None => act > 2,
            },
    {
        if act == 0 {
            Some(PushAction::Null)
        } else if act == 1 {
            Some(PushAction::Flush)
        } else if act == 2 {
            Some(PushAction::End)
        } else {
            None
        }
    }

    /// The C code of the action.
    pub fn code(self) -> (r: u32)
        ensures
            r == spec_action_code(self),
    {
        match self {
            PushAction::Null => 0,
            PushAction::Flush => 1,
            PushAction::End => 2,
        }
    }
}

/// The return type for a delivery processor's `push`
#[derive(Debug, Copy, Clone, PartialEq, Eq, Structural)]
pub enum PushResult {
    /// Indicates a failure, the pipeline will be stopped with an error
    Error,
    /// Nothing special, processing should continue
    Continue,
    /// Stop early, without error
    End,
}

pub open spec fn spec_push_status(r: PushResult) -> i32 {
    match r {
        PushResult::Error => -1i32,
        PushResult::Continue => 0,
        PushResult::End => 1,
    }
}

pub open spec fn spec_push_result_of(status: i32) -> PushResult {
    if status < 0 {
        PushResult::Error
    } else if status == 0 {
        PushResult::Continue
    } else {
        PushResult::End
    }
}

impl PushResult {
    /// What pushing bytes down the pipeline returned: an error below 0, done above.
    pub fn from_status(status: i32) -> (r: Self)
        ensures
            r == spec_push_result_of(status),
    {
        if status < 0 {
            PushResult::Error
        } else if status == 0 {
            PushResult::Continue
        } else {
            PushResult::End
        }
    }

    /// The C status a processor's result is handed back as.
    pub fn status(self) -> (r: i32)
        ensures
            r == spec_push_status(self),
    {
        match self {
            PushResult::Error => -1,
            PushResult::Continue => 0,
            PushResult::End => 1,
        }
    }
}

/// What a delivery processor's `push` gives back for the C action code `act`, the result of the
/// processor when it ran: an unknown code stops the pipeline without calling it.
pub open spec fn spec_vdp_push_status(act: u32, result: PushResult) -> i32 {
    if act > 2 { 1 } else { spec_push_status(result) }
}

/// The C codes of a fetch processor's status: `VFP_ERROR`, `VFP_OK` and `VFP_END` are -1, 0 and
/// 1.
pub open spec fn is_vfp_status(s: i32) -> bool {
    -1 <= s <= 1
}

/// The return type for a fetch processor's `pull`
#[derive(Debug, Copy, Clone, PartialEq, Eq, Structural)]
pub enum PullResult {
    /// Indicates a failure, the pipeline will be stopped with an error
    Error,
    /// Specify how many bytes were written to the buffer, and that the processor is ready for the
    /// next call
    Continue(usize),
    /// The processor is done, and returns how many bytes were treated
    End(usize),
}

pub open spec fn spec_pull_result_of(status: i32, len: isize) -> PullResult {
    if status == 0 {
        PullResult::Continue(len as usize)
    } else if status == 1 {
        PullResult::End(len as usize)
    } else {
        PullResult::Error
    }
}

/// The C status and, but on error, the length a fetch processor's result is handed back as.
pub open spec fn spec_pull_status(r: PullResult) -> (i32, Option<isize>) {
    match r {
        PullResult::Error => (-1i32, None),
        PullResult::Continue(l) => (0, Some(l as isize)),
        PullResult::End(l) => (1, Some(l as isize)),
    }
}

impl PullResult {
    /// What pulling from the previous processor returned: `status` and the length it filled of
    /// a buffer of `max_len` bytes.
    pub fn from_suck(status: i32, len: isize, max_len: isize) -> (r: Self)
        requires
            is_vfp_status(status),
            status != -1 ==> 0 <= len <= max_len,
        ensures
            r == spec_pull_result_of(status, len),
    {
        if status == 0 {
            PullResult::Continue(len as usize)
        } else if status == 1 {
            PullResult::End(len as usize)
        } else {
            PullResult::Error
        }
    }

    /// The C status, and the length to report when there is one.
    pub fn status(self) -> (r: (i32, Option<isize>))
        ensures
            r == spec_pull_status(self),
    {
        match self {
            PullResult::Error => (-1, None),
            PullResult::Continue(l) => (0, Some(l as isize)),
            PullResult::End(l) => (1, Some(l as isize)),
        }
    }
}

/// The return type for the `new` of a processor
#[derive(Debug)]
pub enum InitResult<T> {
    /// The processor could not be created
    Error(String),
    /// The processor to run
    Created(T),
    /// The processor has nothing to do here
    Pass,
}

pub open spec fn spec_init_status<T>(r: InitResult<T>) -> i32 {
    match r {
        InitResult::Error(_) => -1i32,
        InitResult::Created(_) => 0,
        InitResult::Pass => 1,
    }
}

impl<T> InitResult<T> {
    /// The C status of a processor's creation: the processor is kept on success only.
    pub fn into_status(self) -> (r: (i32, Option<T>))
        ensures
            r.0 == spec_init_status(self),
            match self {
                InitResult::Created(p) => r.1 == Some(p),
                _ => r.1 is None,
            },
    {
        match self {
            InitResult::Error(_) => (-1, None),
            InitResult::Created(p) => (0, Some(p)),
            InitResult::Pass => (1, None),
        }
    }
}

/// A pulled result read back: what the C side gets from a result is what it would read as that
/// result, for a length that fits.
pub proof fn lemma_pull_round_trip(r: PullResult)
    requires
        match r {
            PullResult::Continue(l) | PullResult::End(l) => l <= isize::MAX,
            PullResult::Error => true,
        },
    ensures
        ({
            let (s, len) = spec_pull_status(r);
            spec_pull_result_of(s, match len { Some(l) => l, None => 0 }) == r
        }),
{
}

/// A push status read back gives the result it came from.
pub proof fn lemma_push_round_trip(r: PushResult)
    ensures
        spec_push_result_of(spec_push_status(r)) == r,
{
}

} // verus!
