//! Event stream parsing and dispatch.
//!
//! A read on the device handle yields whole events only: each begins with
//! a type word and a length word, followed by the type-specific payload.
//! The vertical-blank and page-flip-complete variants carry a user token,
//! seconds, microseconds and a sequence number. `parse_events` decodes
//! such a buffer — unknown event kinds are skipped by their length, and a
//! malformed buffer, which the kernel's whole-event guarantee rules out,
//! is reported as fatal rather than guessed at. `handle_event` forwards
//! each decoded event to a caller-supplied handler, exactly once and in
//! order, which its contract states over the handler's call history.

use vstd::prelude::*;

use vstd::bytes::{spec_u32_from_le_bytes, spec_u64_from_le_bytes};

use crate::wire::{read_u32_at, read_u64_at};

verus! {

/// Type code of a vertical-blank event.
pub const DRM_EVENT_VBLANK: u32 = 0x01;

/// Type code of a page-flip completion event.
pub const DRM_EVENT_FLIP_COMPLETE: u32 = 0x02;

/// One decoded event from the device's event stream. The user token is
/// kept as the raw 64-bit word the wire carries.
#[derive(Clone, Copy, PartialEq, Eq, Structural, Debug)]
pub enum Event {
    VBlank { sequence: u32, sec: u32, usec: u32, data: u64 },
    PageFlipComplete { sequence: u32, sec: u32, usec: u32, data: u64 },
}

/// The event starting at offset `i`, for a known type code: token word at
/// 8, seconds at 16, microseconds at 20, sequence number at 24.
pub open spec fn event_at(b: Seq<u8>, i: int, etype: u32) -> Event {
    let data = spec_u64_from_le_bytes(b.subrange(i + 8, i + 16));
    let sec = spec_u32_from_le_bytes(b.subrange(i + 16, i + 20));
    let usec = spec_u32_from_le_bytes(b.subrange(i + 20, i + 24));
    let sequence = spec_u32_from_le_bytes(b.subrange(i + 24, i + 28));
    if etype == DRM_EVENT_VBLANK {
        Event::VBlank { sequence, sec, usec, data }
    } else {
        Event::PageFlipComplete { sequence, sec, usec, data }
    }
}

/// The events encoded from offset `i` to the end of the buffer, or `None`
/// where the buffer is malformed: a truncated header, a length below the
/// header size, a length past the end, or a known event kind too short
/// for its payload.
pub open spec fn parse_from(b: Seq<u8>, i: int) -> Option<Seq<Event>>
    decreases b.len() - i,
    when 0 <= i <= b.len()
{
    if i == b.len() {
        Some(Seq::<Event>::empty())
    } else if i + 8 > b.len() {
        None
    } else {
        let etype = spec_u32_from_le_bytes(b.subrange(i, i + 4));
        let elen = spec_u32_from_le_bytes(b.subrange(i + 4, i + 8)) as int;
        if elen < 8 || i + elen > b.len() {
            None
        } else if (etype == DRM_EVENT_VBLANK || etype == DRM_EVENT_FLIP_COMPLETE) && elen < 28 {
            None
        } else {
            match parse_from(b, i + elen) {
                None => None,
                Some(rest) => if etype == DRM_EVENT_VBLANK || etype == DRM_EVENT_FLIP_COMPLETE {
                    Some(seq![event_at(b, i, etype)] + rest)
                } else {
                    Some(rest)
                },
            }
        }
    }
}

/// Decode a buffer read from the device into its events, or `None` where
/// the buffer is malformed.
pub fn parse_events(buf: &[u8]) -> (r: Option<Vec<Event>>)
    ensures
        match parse_from(buf@, 0) {
            None => r is None,
            Some(s) => r matches Some(v) && v@ == s,
        },
{
    let mut acc: Vec<Event> = Vec::new();
    let mut i: usize = 0;
    proof {
        match parse_from(buf@, 0) {
            Some(s) => {
                assert(acc@ + s =~= s);
            },
            None => {},
        }
    }
    while i < buf.len()
        invariant
            i <= buf@.len(),
            match parse_from(buf@, i as int) {
                None => parse_from(buf@, 0) is None,
                Some(rest) => parse_from(buf@, 0) matches Some(full) && full == acc@ + rest,
            },
        decreases buf@.len() - i,
    {
        if buf.len() - i < 8 {
            return None;
        }
        let etype = read_u32_at(buf, i);
        let elen32 = read_u32_at(buf, i + 4);
        if elen32 < 8 {
            return None;
        }
        let elen = elen32 as usize;
        if elen > buf.len() - i {
            return None;
        }
        if etype == DRM_EVENT_VBLANK || etype == DRM_EVENT_FLIP_COMPLETE {
            if elen < 28 {
                return None;
            }
            let data = read_u64_at(buf, i + 8);
            let sec = read_u32_at(buf, i + 16);
            let usec = read_u32_at(buf, i + 20);
            let sequence = read_u32_at(buf, i + 24);
            let e = if etype == DRM_EVENT_VBLANK {
                Event::VBlank { sequence, sec, usec, data }
            } else {
                Event::PageFlipComplete { sequence, sec, usec, data }
            };
            proof {
                assert(e == event_at(buf@, i as int, etype));
                match parse_from(buf@, i as int + elen as int) {
                    Some(rest) => {
                        assert(acc@.push(e) + rest =~= acc@ + (seq![e] + rest));
                    },
                    None => {},
                }
            }
            acc.push(e);
        }
        i = i + elen;
    }
    proof {
        assert(parse_from(buf@, i as int) == Some(Seq::<Event>::empty()));
        match parse_from(buf@, 0) {
            Some(full) => {
                assert(acc@ + Seq::<Event>::empty() =~= acc@);
            },
            None => {},
        }
    }
    Some(acc)
}

/// One invocation of a handler callback, with the values it was handed.
#[derive(Clone, Copy, PartialEq, Eq, Structural, Debug)]
pub enum HandlerCall {
    VBlank { fd: i32, sequence: u32, sec: u32, usec: u32, data: i32 },
    PageFlip { fd: i32, sequence: u32, sec: u32, usec: u32, data: i32 },
}

/// The user token a raw 64-bit word round-trips to: its low 32 bits, in
/// two's complement. The facade restricts flip tokens to plain integers,
/// and this is the integer the completion path hands back.
pub open spec fn spec_token(d: u64) -> i32 {
    let low = d % 0x1_0000_0000;
    if low < 0x8000_0000 {
        low as i32
    } else {
        (low - 0x1_0000_0000) as i32
    }
}

/// The user token carried by a raw 64-bit word.
pub fn token_of(d: u64) -> (r: i32)
    ensures
        r == spec_token(d),
{
    proof {
        assert(d & 0xffff_ffff == d % 0x1_0000_0000) by (bit_vector);
    }
    let low = (d & 0xffff_ffff) as u32;
    if low < 0x8000_0000u32 {
        low as i32
    } else {
        ((low as i64) - 0x1_0000_0000i64) as i32
    }
}

/// The handler invocation an event is dispatched as.
pub open spec fn call_of(fd: i32, e: Event) -> HandlerCall {
    match e {
        Event::VBlank { sequence, sec, usec, data } => HandlerCall::VBlank {
            fd,
            sequence,
            sec,
            usec,
            data: spec_token(data),
        },
        Event::PageFlipComplete { sequence, sec, usec, data } => HandlerCall::PageFlip {
            fd,
            sequence,
            sec,
            usec,
            data: spec_token(data),
        },
    }
}

/// A caller-supplied handler for decoded events. Its call history — every
/// invocation, in order, with the values handed over — is the handler's
/// specification surface: each callback appends exactly its own record.
pub trait EventContext {
    /// Every invocation this handler has received, in order.
    spec fn history(&self) -> Seq<HandlerCall>;

    fn vblank_handler(&mut self, fd: i32, sequence: u32, sec: u32, usec: u32, data: i32)
        ensures
            final(self).history() == old(self).history().push(
                HandlerCall::VBlank { fd, sequence, sec, usec, data },
            ),
    ;

    fn page_flip_handler(&mut self, fd: i32, sequence: u32, sec: u32, usec: u32, data: i32)
        ensures
            final(self).history() == old(self).history().push(
                HandlerCall::PageFlip { fd, sequence, sec, usec, data },
            ),
    ;
}

/// A handler that records every invocation it receives, in order: the
/// executable form of the call history itself, and the reference
/// implementation of the `EventContext` contract.
pub struct CallLog {
    calls: Vec<HandlerCall>,
}

impl CallLog {
    /// A fresh log with no recorded invocations.
    pub fn new() -> (r: CallLog)
        ensures
            r.history() == Seq::<HandlerCall>::empty(),
    {
        CallLog { calls: Vec::new() }
    }

    /// The invocations received so far, in order.
    pub fn calls(&self) -> (r: &Vec<HandlerCall>)
        ensures
            r@ == self.history(),
    {
        &self.calls
    }
}

impl EventContext for CallLog {
    closed spec fn history(&self) -> Seq<HandlerCall> {
        self.calls@
    }

    fn vblank_handler(&mut self, fd: i32, sequence: u32, sec: u32, usec: u32, data: i32) {
        self.calls.push(HandlerCall::VBlank { fd, sequence, sec, usec, data });
    }

    fn page_flip_handler(&mut self, fd: i32, sequence: u32, sec: u32, usec: u32, data: i32) {
        self.calls.push(HandlerCall::PageFlip { fd, sequence, sec, usec, data });
    }
}

/// Dispatch decoded events to a handler. Each event invokes the matching
/// callback exactly once, in stream order, with the event's sequence
/// number, timestamp and user token; the handler is borrowed only for
/// this one call, so no reference to it outlives the dispatch.
pub fn handle_event<C: EventContext>(fd: i32, events: &Vec<Event>, context: &mut C)
    ensures
        final(context).history() == old(context).history() + events@.map_values(
            |e: Event| call_of(fd, e),
        ),
{
    let mut k: usize = 0;
    proof {
        assert(context.history() + events@.take(0).map_values(|e: Event| call_of(fd, e))
            =~= context.history());
    }
    while k < events.len()
        invariant
            k <= events@.len(),
            context.history() == old(context).history() + events@.take(k as int).map_values(
                |e: Event| call_of(fd, e),
            ),
        decreases events@.len() - k,
    {
        let e = events[k];
        proof {
            assert(events@.take(k as int + 1) =~= events@.take(k as int).push(e));
            assert(events@.take(k as int + 1).map_values(|ev: Event| call_of(fd, ev))
                =~= events@.take(k as int).map_values(|ev: Event| call_of(fd, ev)).push(
                call_of(fd, e),
            ));
            assert(old(context).history() + events@.take(k as int + 1).map_values(
                |ev: Event| call_of(fd, ev),
            ) =~= (old(context).history() + events@.take(k as int).map_values(
                |ev: Event| call_of(fd, ev),
            )).push(call_of(fd, e)));
        }
        match e {
            Event::VBlank { sequence, sec, usec, data } => {
                let token = token_of(data);
                context.vblank_handler(fd, sequence, sec, usec, token);
            },
            Event::PageFlipComplete { sequence, sec, usec, data } => {
                let token = token_of(data);
                context.page_flip_handler(fd, sequence, sec, usec, token);
            },
        }
        k = k + 1;
    }
    proof {
        assert(events@.take(events@.len() as int) =~= events@);
    }
}

} // verus!
