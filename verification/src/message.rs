//! Two-stage message-text resolution: the inline cached text when the
//! record carries it, otherwise a live metadata lookup with one
//! exact-size retry.
//!
//! The record is first rendered over two named paths: the provider name
//! and the rendering-info message. When the message slot holds a string,
//! that is the answer and no metadata service is touched. When it holds
//! the absent value, the provider's metadata is opened and the text is
//! formatted into a fixed-size buffer; a too-small report is retried
//! exactly once with the reported size, and any further failure is fatal.

use vstd::prelude::*;

use crate::variant::EventVariantValue;

verus! {

/// The buffer size, in 16-bit units, of the first format attempt.
pub const INITIAL_FORMAT_BUFFER_LEN: u32 = 512;

/// Why message resolution failed.
#[derive(Clone, Copy, PartialEq, Eq, Structural, Debug)]
pub enum MessageError {
    /// The message slot decoded as something other than a string or the
    /// absent value.
    UnexpectedMessageKind,
    /// The provider-name slot decoded as something other than a string.
    UnexpectedProviderKind,
    /// The first format attempt failed with something other than
    /// buffer-too-small.
    InitialFormat { code: u32 },
    /// The retried format attempt failed.
    Format { code: u32 },
    /// The retried attempt, made with the exact reported size, still
    /// reported the buffer too small.
    RetryExhausted { required: u32 },
}

/// What follows from the two rendered slots.
#[derive(Clone, PartialEq, Eq, Debug)]
pub enum MessageStep {
    /// The record carries its formatted text: resolution is complete and
    /// no metadata lookup happens.
    Inline { message: String },
    /// The record carries no inline text: open the named provider's
    /// metadata and format.
    Lookup { provider: String },
    /// The slots broke the expected shape.
    Failed { error: MessageError },
}

/// Decide from the two decoded slots: the inline message ends resolution,
/// the absent value routes to the metadata lookup under the provider's
/// name, and any other shape is an error.
pub fn message_after_render(message_slot: EventVariantValue, provider_slot: EventVariantValue) -> (r:
    MessageStep)
    ensures
        message_slot matches EventVariantValue::String(s) ==> (r matches MessageStep::Inline {
            message } && message == s),
        message_slot is Null ==> match provider_slot {
            EventVariantValue::String(p) => r matches MessageStep::Lookup { provider } && provider
                == p,
            _ => r == (MessageStep::Failed { error: MessageError::UnexpectedProviderKind }),
        },
        !(message_slot is String) && !(message_slot is Null) ==> r == (MessageStep::Failed {
            error: MessageError::UnexpectedMessageKind,
        }),
{
    match message_slot {
        EventVariantValue::String(s) => MessageStep::Inline { message: s },
        EventVariantValue::Null => match provider_slot {
            EventVariantValue::String(p) => MessageStep::Lookup { provider: p },
            _ => MessageStep::Failed { error: MessageError::UnexpectedProviderKind },
        },
        _ => MessageStep::Failed { error: MessageError::UnexpectedMessageKind },
    }
}

/// What the external format call reported.
#[derive(Clone, PartialEq, Eq, Debug)]
pub enum FormatOutcome {
    /// The buffer was filled with the formatted text.
    Success { text: String },
    /// The buffer was too small; exactly `required` units are needed.
    InsufficientBuffer { required: u32 },
    /// Any other failure, carrying the source's error code.
    Failure { code: u32 },
}

/// The bounded-retry formatting state: at most one retry, with the exact
/// reported size.
#[derive(Clone, PartialEq, Eq, Debug)]
pub enum FormatState {
    /// Awaiting a format attempt into a buffer of `buffer_len` units;
    /// `retried` says whether this already is the retry.
    Attempt { buffer_len: u32, retried: bool },
    /// The formatted text.
    Done { text: String },
    /// The failure to surface.
    Failed { error: MessageError },
}

/// The transition formatting makes on one reported outcome: a first
/// too-small report retries once with the exact reported size; a second
/// one, or any other failure, is fatal.
pub open spec fn spec_format_step(s: FormatState, o: FormatOutcome) -> FormatState {
    match s {
        FormatState::Attempt { buffer_len, retried } => match o {
            FormatOutcome::Success { text } => FormatState::Done { text },
            FormatOutcome::InsufficientBuffer { required } => {
                if retried {
                    FormatState::Failed { error: MessageError::RetryExhausted { required } }
                } else {
                    FormatState::Attempt { buffer_len: required, retried: true }
                }
            },
            FormatOutcome::Failure { code } => {
                if retried {
                    FormatState::Failed { error: MessageError::Format { code } }
                } else {
                    FormatState::Failed { error: MessageError::InitialFormat { code } }
                }
            },
        },
        _ => s,
    }
}

impl FormatState {
    /// The first attempt, over the fixed initial buffer size.
    pub fn initial() -> (r: Self)
        ensures
            r == (FormatState::Attempt { buffer_len: INITIAL_FORMAT_BUFFER_LEN, retried: false }),
    {
        FormatState::Attempt { buffer_len: INITIAL_FORMAT_BUFFER_LEN, retried: false }
    }

    /// Advance on the outcome of the attempt the state awaits. Final
    /// states absorb.
    pub fn step(self, outcome: FormatOutcome) -> (r: Self)
        ensures
            r == spec_format_step(self, outcome),
    {
        match self {
            FormatState::Attempt { buffer_len: _, retried } => match outcome {
                FormatOutcome::Success { text } => FormatState::Done { text },
                FormatOutcome::InsufficientBuffer { required } => {
                    if retried {
                        FormatState::Failed { error: MessageError::RetryExhausted { required } }
                    } else {
                        FormatState::Attempt { buffer_len: required, retried: true }
                    }
                },
                FormatOutcome::Failure { code } => {
                    if retried {
                        FormatState::Failed { error: MessageError::Format { code } }
                    } else {
                        FormatState::Failed { error: MessageError::InitialFormat { code } }
                    }
                },
            },
            s => s,
        }
    }
}

/// Formatting retries at most once: whatever the outcomes, two attempts
/// decide the run, and a second too-small report fails rather than
/// retrying again.
pub proof fn lemma_format_bounded_retry(o1: FormatOutcome, o2: FormatOutcome)
    ensures
        ({
            let s1 = spec_format_step(FormatState::initial_spec(), o1);
            &&& (o1 matches FormatOutcome::InsufficientBuffer { required } ==> s1
                == (FormatState::Attempt { buffer_len: required, retried: true }))
            &&& (s1 is Attempt ==> (spec_format_step(s1, o2) is Done || spec_format_step(s1, o2)
                is Failed))
        }),
{
}

impl FormatState {
    /// The first attempt, at spec level.
    pub open spec fn initial_spec() -> FormatState {
        FormatState::Attempt { buffer_len: INITIAL_FORMAT_BUFFER_LEN, retried: false }
    }
}

} // verus!
