use evtdecode::message::{
    message_after_render, FormatOutcome, FormatState, MessageError, MessageStep,
    INITIAL_FORMAT_BUFFER_LEN,
};
use evtdecode::protocol::{
    RenderError, RenderOutcome, RenderProtocol, RenderSpec, RenderTarget, CONTEXT_SYSTEM,
    CONTEXT_USER, CONTEXT_VALUES, RENDER_BOOKMARK, RENDER_VALUES, RENDER_XML,
};
use evtdecode::variant::EventVariantValue;

#[test]
fn two_phase_protocol_fills_with_the_reported_size() {
    // The sizing call reports "too small, 128 bytes needed"; the second
    // call succeeds: exactly two calls, a 128-byte buffer.
    let mut calls = 0;
    let p = RenderProtocol::new();
    calls += 1;
    let p = p.step(&RenderOutcome::InsufficientBuffer { required: 128, property_count: 5 });
    assert_eq!(p, RenderProtocol::Filling { size: 128 });
    calls += 1;
    let p = p.step(&RenderOutcome::Success { buffer_used: 128, property_count: 5 });
    assert_eq!(p, RenderProtocol::Done { size: 128, property_count: 5 });
    assert_eq!(calls, 2);
}

#[test]
fn sizing_success_with_zero_size_still_fills_an_empty_buffer() {
    // A record with nothing to render may succeed on the sizing call with
    // size zero: that is an empty buffer, never an error.
    let p = RenderProtocol::new()
        .step(&RenderOutcome::Success { buffer_used: 0, property_count: 0 });
    assert_eq!(p, RenderProtocol::Filling { size: 0 });
    let p = p.step(&RenderOutcome::Success { buffer_used: 0, property_count: 0 });
    assert_eq!(p, RenderProtocol::Done { size: 0, property_count: 0 });
}

#[test]
fn sizing_failure_is_fatal() {
    let p = RenderProtocol::new().step(&RenderOutcome::Failure { code: 5 });
    assert_eq!(p, RenderProtocol::Failed { error: RenderError::Sizing { code: 5 } });
}

#[test]
fn second_too_small_report_is_fatal_not_retried() {
    let p = RenderProtocol::new()
        .step(&RenderOutcome::InsufficientBuffer { required: 64, property_count: 1 })
        .step(&RenderOutcome::InsufficientBuffer { required: 96, property_count: 1 });
    assert_eq!(
        p,
        RenderProtocol::Failed { error: RenderError::RetryExhausted { required: 96 } }
    );
}

#[test]
fn render_targets_pick_their_flags_and_context() {
    let system = RenderSpec { target: RenderTarget::System };
    assert_eq!(system.render_flags(), RENDER_VALUES);
    assert_eq!(system.context_flags(), CONTEXT_SYSTEM);
    assert!(system.needs_context());

    let user = RenderSpec { target: RenderTarget::User };
    assert_eq!(user.context_flags(), CONTEXT_USER);
    assert!(user.needs_context());

    let xml = RenderSpec { target: RenderTarget::Xml };
    assert_eq!(xml.render_flags(), RENDER_XML);
    assert!(!xml.needs_context());

    let bookmark = RenderSpec { target: RenderTarget::Bookmark };
    assert_eq!(bookmark.render_flags(), RENDER_BOOKMARK);
    assert!(!bookmark.needs_context());

    let named = RenderSpec {
        target: RenderTarget::NamedPaths(vec!["Event/System/Provider/@Name".to_string()]),
    };
    assert_eq!(named.render_flags(), RENDER_VALUES);
    assert_eq!(named.context_flags(), CONTEXT_VALUES);
    assert!(named.needs_context());
}

#[test]
fn inline_message_resolves_without_metadata_lookup() {
    let step = message_after_render(
        EventVariantValue::String("Event occurred".to_string()),
        EventVariantValue::String("SomeProvider".to_string()),
    );
    assert_eq!(step, MessageStep::Inline { message: "Event occurred".to_string() });
}

#[test]
fn absent_inline_message_routes_to_one_metadata_lookup() {
    let step = message_after_render(
        EventVariantValue::Null,
        EventVariantValue::String("SomeProvider".to_string()),
    );
    assert_eq!(step, MessageStep::Lookup { provider: "SomeProvider".to_string() });
}

#[test]
fn unexpected_slot_shapes_fail_resolution() {
    let step = message_after_render(
        EventVariantValue::UInt32(7),
        EventVariantValue::String("SomeProvider".to_string()),
    );
    assert_eq!(step, MessageStep::Failed { error: MessageError::UnexpectedMessageKind });

    let step = message_after_render(EventVariantValue::Null, EventVariantValue::Null);
    assert_eq!(step, MessageStep::Failed { error: MessageError::UnexpectedProviderKind });
}

#[test]
fn formatting_retries_exactly_once_with_the_reported_size() {
    let s = FormatState::initial();
    assert_eq!(
        s,
        FormatState::Attempt { buffer_len: INITIAL_FORMAT_BUFFER_LEN, retried: false }
    );
    let s = s.step(FormatOutcome::InsufficientBuffer { required: 2048 });
    assert_eq!(s, FormatState::Attempt { buffer_len: 2048, retried: true });
    let s = s.step(FormatOutcome::Success { text: "formatted".to_string() });
    assert_eq!(s, FormatState::Done { text: "formatted".to_string() });
}

#[test]
fn a_second_insufficient_size_is_fatal() {
    let s = FormatState::initial()
        .step(FormatOutcome::InsufficientBuffer { required: 1024 })
        .step(FormatOutcome::InsufficientBuffer { required: 4096 });
    assert_eq!(
        s,
        FormatState::Failed { error: MessageError::RetryExhausted { required: 4096 } }
    );
}

#[test]
fn format_failures_surface_their_codes() {
    let s = FormatState::initial().step(FormatOutcome::Failure { code: 15100 });
    assert_eq!(s, FormatState::Failed { error: MessageError::InitialFormat { code: 15100 } });

    let s = FormatState::initial()
        .step(FormatOutcome::InsufficientBuffer { required: 600 })
        .step(FormatOutcome::Failure { code: 15100 });
    assert_eq!(s, FormatState::Failed { error: MessageError::Format { code: 15100 } });
}
