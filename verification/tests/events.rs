//! Event stream decoding and the dispatch bridge scenario: a recording
//! handler sees each simulated event exactly once, with exactly the values
//! the stream carried.

use libdrm::event_handler::{
    handle_event, parse_events, token_of, CallLog, Event, HandlerCall, DRM_EVENT_FLIP_COMPLETE,
    DRM_EVENT_VBLANK,
};

fn push_u32(buf: &mut Vec<u8>, x: u32) {
    buf.extend_from_slice(&x.to_le_bytes());
}

fn push_u64(buf: &mut Vec<u8>, x: u64) {
    buf.extend_from_slice(&x.to_le_bytes());
}

/// One whole event: header {type, length}, token word, seconds,
/// microseconds, sequence number, one trailing pad word (length 32).
fn push_event(buf: &mut Vec<u8>, etype: u32, token: u64, sec: u32, usec: u32, sequence: u32) {
    push_u32(buf, etype);
    push_u32(buf, 32);
    push_u64(buf, token);
    push_u32(buf, sec);
    push_u32(buf, usec);
    push_u32(buf, sequence);
    push_u32(buf, 0);
}

#[test]
fn one_vblank_event_invokes_the_handler_exactly_once() {
    let mut buf: Vec<u8> = Vec::new();
    push_event(&mut buf, DRM_EVENT_VBLANK, 7, 5, 250, 100);
    let events = parse_events(&buf).unwrap();
    assert_eq!(events.len(), 1);

    let mut log = CallLog::new();
    handle_event(3, &events, &mut log);
    assert_eq!(
        log.calls(),
        &vec![HandlerCall::VBlank { fd: 3, sequence: 100, sec: 5, usec: 250, data: 7 }]
    );

    // A later dispatch with nothing pending invokes nothing.
    let none: Vec<Event> = Vec::new();
    handle_event(3, &none, &mut log);
    assert_eq!(log.calls().len(), 1);
}

#[test]
fn flip_completion_reaches_the_flip_handler() {
    let mut buf: Vec<u8> = Vec::new();
    push_event(&mut buf, DRM_EVENT_FLIP_COMPLETE, 42, 9, 125, 77);
    let events = parse_events(&buf).unwrap();
    let mut log = CallLog::new();
    handle_event(5, &events, &mut log);
    assert_eq!(
        log.calls(),
        &vec![HandlerCall::PageFlip { fd: 5, sequence: 77, sec: 9, usec: 125, data: 42 }]
    );
}

#[test]
fn events_are_dispatched_in_stream_order() {
    let mut buf: Vec<u8> = Vec::new();
    push_event(&mut buf, DRM_EVENT_VBLANK, 1, 10, 0, 1);
    push_event(&mut buf, DRM_EVENT_FLIP_COMPLETE, 2, 11, 0, 2);
    push_event(&mut buf, DRM_EVENT_VBLANK, 3, 12, 0, 3);
    let events = parse_events(&buf).unwrap();
    assert_eq!(events.len(), 3);
    let mut log = CallLog::new();
    handle_event(0, &events, &mut log);
    assert_eq!(
        log.calls(),
        &vec![
            HandlerCall::VBlank { fd: 0, sequence: 1, sec: 10, usec: 0, data: 1 },
            HandlerCall::PageFlip { fd: 0, sequence: 2, sec: 11, usec: 0, data: 2 },
            HandlerCall::VBlank { fd: 0, sequence: 3, sec: 12, usec: 0, data: 3 },
        ]
    );
}

#[test]
fn unknown_event_kinds_are_skipped_by_length() {
    let mut buf: Vec<u8> = Vec::new();
    // An unknown kind with a 12-byte body.
    push_u32(&mut buf, 0x7f);
    push_u32(&mut buf, 12);
    push_u32(&mut buf, 0xAAAA_5555);
    push_event(&mut buf, DRM_EVENT_VBLANK, 7, 5, 250, 100);
    let events = parse_events(&buf).unwrap();
    assert_eq!(events.len(), 1);
    assert!(matches!(events[0], Event::VBlank { sequence: 100, .. }));
}

#[test]
fn an_empty_buffer_holds_no_events() {
    let buf: Vec<u8> = Vec::new();
    let events = parse_events(&buf).unwrap();
    assert!(events.is_empty());
}

#[test]
fn malformed_buffers_are_fatal() {
    // Truncated header.
    assert!(parse_events(&[1u8, 0, 0]).is_none());
    // Length below the header size.
    let mut short: Vec<u8> = Vec::new();
    push_u32(&mut short, DRM_EVENT_VBLANK);
    push_u32(&mut short, 4);
    assert!(parse_events(&short).is_none());
    // Length past the end of the buffer.
    let mut over: Vec<u8> = Vec::new();
    push_u32(&mut over, DRM_EVENT_VBLANK);
    push_u32(&mut over, 64);
    over.resize(32, 0);
    assert!(parse_events(&over).is_none());
    // A known kind too short for its payload.
    let mut thin: Vec<u8> = Vec::new();
    push_u32(&mut thin, DRM_EVENT_VBLANK);
    push_u32(&mut thin, 16);
    thin.resize(16, 0);
    assert!(parse_events(&thin).is_none());
}

#[test]
fn the_token_word_round_trips_small_integers() {
    assert_eq!(token_of(7), 7);
    assert_eq!(token_of(0), 0);
    assert_eq!(token_of(0x7fff_ffff), 0x7fff_ffff);
    // The kernel hands the token back as a 64-bit word; a negative token
    // comes back sign-extended and must round-trip.
    assert_eq!(token_of(0xffff_ffff_ffff_ffff), -1);
    assert_eq!(token_of(0xffff_ffff_8000_0000), i32::MIN);
}

#[test]
fn the_token_reaches_the_handler_through_dispatch() {
    let mut buf: Vec<u8> = Vec::new();
    push_event(&mut buf, DRM_EVENT_FLIP_COMPLETE, 0xffff_ffff_ffff_ffff, 0, 0, 1);
    let events = parse_events(&buf).unwrap();
    let mut log = CallLog::new();
    handle_event(0, &events, &mut log);
    assert_eq!(
        log.calls(),
        &vec![HandlerCall::PageFlip { fd: 0, sequence: 1, sec: 0, usec: 0, data: -1 }]
    );
}
