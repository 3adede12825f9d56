//! The two-phase render protocol: the size-query-then-fill sequence against
//! the external render primitive, as an explicit two-step state machine.
//!
//! The first call is made with a zero-length buffer; it is expected to
//! report the required size and the slot count, either as a success (a
//! record with nothing to render) or as a buffer-too-small condition. The
//! second call is made with a buffer of exactly the reported size. Any
//! other failure, at either phase, is fatal and surfaced. There is never a
//! third call: more than one retry would mean the source broke its
//! contract.

use vstd::prelude::*;

verus! {

/// Context flags: which named set of values a render context selects.
pub const CONTEXT_VALUES: u32 = 0;

pub const CONTEXT_SYSTEM: u32 = 1;

pub const CONTEXT_USER: u32 = 2;

/// Render flags: what the render primitive writes into the buffer.
pub const RENDER_VALUES: u32 = 0;

pub const RENDER_XML: u32 = 1;

pub const RENDER_BOOKMARK: u32 = 2;

/// What a render call is asked to produce.
#[derive(Clone, PartialEq, Eq, Debug)]
pub enum RenderTarget {
    /// The fixed system-context values.
    System,
    /// The event's user data values.
    User,
    /// The whole record as one encoded string.
    Xml,
    /// A bookmark as one encoded string.
    Bookmark,
    /// The values named by explicit paths.
    NamedPaths(Vec<String>),
}

/// One render request: the target decides the flags and whether a real
/// render context is required.
#[derive(Clone, PartialEq, Eq, Debug)]
pub struct RenderSpec {
    pub target: RenderTarget,
}

impl RenderSpec {
    /// The render flags of this target.
    pub fn render_flags(&self) -> (r: u32)
        ensures
            r == RENDER_XML <==> self.target is Xml,
            r == RENDER_BOOKMARK <==> self.target is Bookmark,
            !(self.target is Xml) && !(self.target is Bookmark) ==> r == RENDER_VALUES,
    {
        match &self.target {
            RenderTarget::Xml => RENDER_XML,
            RenderTarget::Bookmark => RENDER_BOOKMARK,
            _ => RENDER_VALUES,
        }
    }

    /// The context flags of this target, meaningful only when a context is
    /// required.
    pub fn context_flags(&self) -> (r: u32)
        ensures
            self.target is System ==> r == CONTEXT_SYSTEM,
            self.target is User ==> r == CONTEXT_USER,
            !(self.target is System) && !(self.target is User) ==> r == CONTEXT_VALUES,
    {
        match &self.target {
            RenderTarget::System => CONTEXT_SYSTEM,
            RenderTarget::User => CONTEXT_USER,
            _ => CONTEXT_VALUES,
        }
    }

    /// String and bookmark renders take a null context; every values render
    /// requires a real context object, even over an empty path list.
    pub fn needs_context(&self) -> (r: bool)
        ensures
            r <==> !(self.target is Xml) && !(self.target is Bookmark),
    {
        match &self.target {
            RenderTarget::Xml => false,
            RenderTarget::Bookmark => false,
            _ => true,
        }
    }
}

/// What the external render primitive reported for one call.
#[derive(Clone, Copy, PartialEq, Eq, Structural, Debug)]
pub enum RenderOutcome {
    /// The call succeeded: `buffer_used` bytes were (or would be) used and
    /// the buffer carries `property_count` decodable slots.
    Success { buffer_used: u32, property_count: u32 },
    /// The buffer was too small; exactly `required` bytes are needed.
    InsufficientBuffer { required: u32, property_count: u32 },
    /// Any other failure, carrying the source's error code.
    Failure { code: u32 },
}

/// Why a render failed.
#[derive(Clone, Copy, PartialEq, Eq, Structural, Debug)]
pub enum RenderError {
    /// The render context could not be created.
    ContextCreation { code: u32 },
    /// The sizing call failed with something other than buffer-too-small.
    Sizing { code: u32 },
    /// The fill call, made with the exact reported size, still reported the
    /// buffer too small: the source broke the sizing contract.
    RetryExhausted { required: u32 },
    /// The fill call failed.
    Fill { code: u32 },
}

/// The protocol's state: sizing call, fill call, done or failed. Reaching
/// `Done` always takes exactly two calls.
#[derive(Clone, Copy, PartialEq, Eq, Structural, Debug)]
pub enum RenderProtocol {
    /// Awaiting the outcome of the sizing call, made with a zero-length
    /// buffer.
    Sizing,
    /// Awaiting the outcome of the fill call, made with a buffer of exactly
    /// `size` bytes.
    Filling { size: u32 },
    /// The buffer of `size` bytes is filled and holds `property_count`
    /// slots.
    Done { size: u32, property_count: u32 },
    /// The failure to surface.
    Failed { error: RenderError },
}

/// The transition the protocol makes on one reported outcome. A sizing
/// success and a sizing too-small are treated alike: both carry the
/// required size, and a reported size of zero still leads to a fill call
/// over an empty buffer, never to an error.
pub open spec fn spec_render_step(s: RenderProtocol, o: RenderOutcome) -> RenderProtocol {
    match s {
        RenderProtocol::Sizing => match o {
            RenderOutcome::Success { buffer_used, .. } => RenderProtocol::Filling {
                size: buffer_used,
            },
            RenderOutcome::InsufficientBuffer { required, .. } => RenderProtocol::Filling {
                size: required,
            },
            RenderOutcome::Failure { code } => RenderProtocol::Failed {
                error: RenderError::Sizing { code },
            },
        },
        RenderProtocol::Filling { size } => match o {
            RenderOutcome::Success { property_count, .. } => RenderProtocol::Done {
                size,
                property_count,
            },
            RenderOutcome::InsufficientBuffer { required, .. } => RenderProtocol::Failed {
                error: RenderError::RetryExhausted { required },
            },
            RenderOutcome::Failure { code } => RenderProtocol::Failed {
                error: RenderError::Fill { code },
            },
        },
        _ => s,
    }
}

impl RenderProtocol {
    /// A fresh protocol run, about to make the sizing call.
    pub fn new() -> (r: Self)
        ensures
            r == RenderProtocol::Sizing,
    {
        RenderProtocol::Sizing
    }

    /// Advance on the outcome of the call the state awaits. Final states
    /// absorb.
    pub fn step(self, outcome: &RenderOutcome) -> (r: Self)
        ensures
            r == spec_render_step(self, *outcome),
    {
        match self {
            RenderProtocol::Sizing => match outcome {
                RenderOutcome::Success { buffer_used, .. } => RenderProtocol::Filling {
                    size: *buffer_used,
                },
                RenderOutcome::InsufficientBuffer { required, .. } => RenderProtocol::Filling {
                    size: *required,
                },
                RenderOutcome::Failure { code } => RenderProtocol::Failed {
                    error: RenderError::Sizing { code: *code },
                },
            },
            RenderProtocol::Filling { size } => match outcome {
                RenderOutcome::Success { property_count, .. } => RenderProtocol::Done {
                    size,
                    property_count: *property_count,
                },
                RenderOutcome::InsufficientBuffer { required, .. } => RenderProtocol::Failed {
                    error: RenderError::RetryExhausted { required: *required },
                },
                RenderOutcome::Failure { code } => RenderProtocol::Failed {
                    error: RenderError::Fill { code: *code },
                },
            },
            s => s,
        }
    }
}

/// Two calls decide every run: the sizing outcome leads to a fill call
/// with exactly the reported size, or to a fatal failure; and after the
/// fill outcome the protocol is done or failed, never awaiting a third
/// call. A too-small report on the fill call fails rather than retrying
/// again.
pub proof fn lemma_two_phase(o1: RenderOutcome, o2: RenderOutcome)
    ensures
        o1 matches RenderOutcome::Success { buffer_used, .. } ==> spec_render_step(
            RenderProtocol::Sizing,
            o1,
        ) == (RenderProtocol::Filling { size: buffer_used }),
        o1 matches RenderOutcome::InsufficientBuffer { required, .. } ==> spec_render_step(
            RenderProtocol::Sizing,
            o1,
        ) == (RenderProtocol::Filling { size: required }),
        o1 is Failure ==> spec_render_step(RenderProtocol::Sizing, o1) is Failed,
        spec_render_step(RenderProtocol::Sizing, o1) is Filling ==> (spec_render_step(
            spec_render_step(RenderProtocol::Sizing, o1),
            o2,
        ) is Done || spec_render_step(spec_render_step(RenderProtocol::Sizing, o1), o2) is Failed),
{
}

} // verus!
