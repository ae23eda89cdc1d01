//! The wire protocol: the messages peers exchange and their byte-level
//! encoding. Every message family encodes as a variant tag followed by its
//! fields in fixed-width little-endian form, and decoding accepts exactly
//! the byte strings the encoder produces.

use vstd::bytes::*;
use vstd::prelude::*;

use crate::duration::SessionDuration;
use crate::pomodoro::Activity;

verus! {

/// A user or remote intent aimed at the shared timer. Commands carry no
/// origin: any peer controls the session symmetrically.
#[derive(Clone, Copy, PartialEq, Eq, Structural, Debug)]
pub enum Event {
    Quit,
    ToggleTimer,
    ResetTimer,
    SkipActivity,
    ExtendActivity(SessionDuration),
    ReduceActivity(SessionDuration),
}

/// What a peer sends to the host.
#[derive(Clone, Copy, PartialEq, Eq, Structural, Debug)]
pub enum ClientMessage {
    Event(Event),
}

/// The read-only snapshot of session state a renderer needs; smaller than
/// the full state, since peers only display and never recompute.
#[derive(Clone, Copy, PartialEq, Eq, Structural, Debug)]
pub struct TimerVisuals {
    pub time_remaining: SessionDuration,
    pub timer_is_paused: bool,
    pub activity: Activity,
    pub progress_permille: u16,
    pub completed_focus_sessions: u32,
}

/// What the host sends to every peer.
#[derive(Clone, Copy, PartialEq, Eq, Structural, Debug)]
pub enum ServerMessage {
    Display(TimerVisuals),
    Notify(Activity),
}

/// An empty, truncated, or tag-mismatched byte string was offered for
/// decoding.
#[derive(Clone, Copy, PartialEq, Eq, Structural, Debug)]
pub struct DeserializeError;

pub open spec fn spec_activity_tag(a: Activity) -> u8 {
    match a {
        Activity::Focus => 0,
        Activity::ShortBreak => 1,
        Activity::LongBreak => 2,
    }
}

pub open spec fn spec_event_tag(e: Event) -> u8 {
    match e {
        Event::Quit => 0,
        Event::ToggleTimer => 1,
        Event::ResetTimer => 2,
        Event::SkipActivity => 3,
        Event::ExtendActivity(_) => 4,
        Event::ReduceActivity(_) => 5,
    }
}

/// The bytes of one command: its tag, then its duration argument if it
/// carries one.
pub open spec fn spec_encode_event(e: Event) -> Seq<u8> {
    match e {
        Event::ExtendActivity(d) => seq![4u8] + spec_u64_to_le_bytes(d.millis),
        Event::ReduceActivity(d) => seq![5u8] + spec_u64_to_le_bytes(d.millis),
        _ => seq![spec_event_tag(e)],
    }
}

/// The bytes of one peer-to-host message: its tag, then the command.
pub open spec fn spec_encode_client_message(m: ClientMessage) -> Seq<u8> {
    match m {
        ClientMessage::Event(e) => seq![0u8] + spec_encode_event(e),
    }
}

/// The bytes of one snapshot: remaining time, paused flag, activity tag,
/// progress in thousandths, and the focus counter.
pub open spec fn spec_encode_visuals(v: TimerVisuals) -> Seq<u8> {
    spec_u64_to_le_bytes(v.time_remaining.millis) + seq![
        if v.timer_is_paused {
            1u8
        } else {
            0u8
        },
    ] + seq![spec_activity_tag(v.activity)] + spec_u16_to_le_bytes(v.progress_permille)
        + spec_u32_to_le_bytes(v.completed_focus_sessions)
}

/// The bytes of one host-to-peer message: its tag, then the snapshot or
/// the activity being announced.
pub open spec fn spec_encode_server_message(m: ServerMessage) -> Seq<u8> {
    match m {
        ServerMessage::Display(v) => seq![0u8] + spec_encode_visuals(v),
        ServerMessage::Notify(a) => seq![1u8] + seq![spec_activity_tag(a)],
    }
}

pub proof fn lemma_encode_event_shape(e: Event)
    ensures
        spec_encode_event(e).len() >= 1,
        spec_encode_event(e)[0] == spec_event_tag(e),
        spec_event_tag(e) <= 5,
        spec_event_tag(e) <= 3 ==> spec_encode_event(e).len() == 1,
        spec_event_tag(e) >= 4 ==> spec_encode_event(e).len() == 9,
{
    lemma_auto_spec_u64_to_from_le_bytes();
    match e {
        Event::ExtendActivity(d) => {
            assert(spec_u64_to_le_bytes(d.millis).len() == 8);
        },
        Event::ReduceActivity(d) => {
            assert(spec_u64_to_le_bytes(d.millis).len() == 8);
        },
        _ => {},
    }
}

pub proof fn lemma_encode_visuals_shape(v: TimerVisuals)
    ensures
        spec_encode_visuals(v).len() == 16,
        spec_encode_visuals(v).subrange(0, 8) == spec_u64_to_le_bytes(v.time_remaining.millis),
        spec_encode_visuals(v)[8] == (if v.timer_is_paused {
            1u8
        } else {
            0u8
        }),
        spec_encode_visuals(v)[9] == spec_activity_tag(v.activity),
        spec_encode_visuals(v).subrange(10, 12) == spec_u16_to_le_bytes(v.progress_permille),
        spec_encode_visuals(v).subrange(12, 16) == spec_u32_to_le_bytes(
            v.completed_focus_sessions,
        ),
{
    lemma_auto_spec_u64_to_from_le_bytes();
    lemma_auto_spec_u16_to_from_le_bytes();
    lemma_auto_spec_u32_to_from_le_bytes();
    assert(spec_encode_visuals(v).subrange(0, 8) =~= spec_u64_to_le_bytes(
        v.time_remaining.millis,
    ));
    assert(spec_encode_visuals(v).subrange(10, 12) =~= spec_u16_to_le_bytes(
        v.progress_permille,
    ));
    assert(spec_encode_visuals(v).subrange(12, 16) =~= spec_u32_to_le_bytes(
        v.completed_focus_sessions,
    ));
}

/// No two distinct commands share an encoding, so decoding the encoding
/// of a command yields exactly that command.
pub proof fn lemma_encode_event_injective(a: Event, b: Event)
    requires
        spec_encode_event(a) == spec_encode_event(b),
    ensures
        a == b,
{
    lemma_auto_spec_u64_to_from_le_bytes();
    lemma_encode_event_shape(a);
    lemma_encode_event_shape(b);
    assert(spec_event_tag(a) == spec_event_tag(b));
    match (a, b) {
        (Event::ExtendActivity(d1), Event::ExtendActivity(d2)) => {
            assert(spec_u64_to_le_bytes(d1.millis) =~= spec_encode_event(a).subrange(1, 9));
            assert(spec_u64_to_le_bytes(d2.millis) =~= spec_encode_event(b).subrange(1, 9));
            assert(d1.millis == spec_u64_from_le_bytes(spec_u64_to_le_bytes(d1.millis)));
            assert(d2.millis == spec_u64_from_le_bytes(spec_u64_to_le_bytes(d2.millis)));
        },
        (Event::ReduceActivity(d1), Event::ReduceActivity(d2)) => {
            assert(spec_u64_to_le_bytes(d1.millis) =~= spec_encode_event(a).subrange(1, 9));
            assert(spec_u64_to_le_bytes(d2.millis) =~= spec_encode_event(b).subrange(1, 9));
            assert(d1.millis == spec_u64_from_le_bytes(spec_u64_to_le_bytes(d1.millis)));
            assert(d2.millis == spec_u64_from_le_bytes(spec_u64_to_le_bytes(d2.millis)));
        },
        _ => {},
    }
}

/// No two distinct peer-to-host messages share an encoding.
pub proof fn lemma_encode_client_message_injective(a: ClientMessage, b: ClientMessage)
    requires
        spec_encode_client_message(a) == spec_encode_client_message(b),
    ensures
        a == b,
{
    match (a, b) {
        (ClientMessage::Event(e1), ClientMessage::Event(e2)) => {
            assert(spec_encode_event(e1) =~= spec_encode_client_message(a).subrange(
                1,
                spec_encode_client_message(a).len() as int,
            ));
            assert(spec_encode_event(e2) =~= spec_encode_client_message(b).subrange(
                1,
                spec_encode_client_message(b).len() as int,
            ));
            lemma_encode_event_injective(e1, e2);
        },
    }
}

/// No two distinct snapshots share an encoding.
pub proof fn lemma_encode_visuals_injective(a: TimerVisuals, b: TimerVisuals)
    requires
        spec_encode_visuals(a) == spec_encode_visuals(b),
    ensures
        a == b,
{
    lemma_auto_spec_u64_to_from_le_bytes();
    lemma_auto_spec_u16_to_from_le_bytes();
    lemma_auto_spec_u32_to_from_le_bytes();
    lemma_encode_visuals_shape(a);
    lemma_encode_visuals_shape(b);
    assert(a.time_remaining.millis == spec_u64_from_le_bytes(
        spec_u64_to_le_bytes(a.time_remaining.millis),
    ));
    assert(b.time_remaining.millis == spec_u64_from_le_bytes(
        spec_u64_to_le_bytes(b.time_remaining.millis),
    ));
    assert(a.progress_permille == spec_u16_from_le_bytes(
        spec_u16_to_le_bytes(a.progress_permille),
    ));
    assert(b.progress_permille == spec_u16_from_le_bytes(
        spec_u16_to_le_bytes(b.progress_permille),
    ));
    assert(a.completed_focus_sessions == spec_u32_from_le_bytes(
        spec_u32_to_le_bytes(a.completed_focus_sessions),
    ));
    assert(b.completed_focus_sessions == spec_u32_from_le_bytes(
        spec_u32_to_le_bytes(b.completed_focus_sessions),
    ));
}

/// No two distinct host-to-peer messages share an encoding.
pub proof fn lemma_encode_server_message_injective(a: ServerMessage, b: ServerMessage)
    requires
        spec_encode_server_message(a) == spec_encode_server_message(b),
    ensures
        a == b,
{
    match (a, b) {
        (ServerMessage::Display(v1), ServerMessage::Display(v2)) => {
            assert(spec_encode_visuals(v1) =~= spec_encode_server_message(a).subrange(
                1,
                spec_encode_server_message(a).len() as int,
            ));
            assert(spec_encode_visuals(v2) =~= spec_encode_server_message(b).subrange(
                1,
                spec_encode_server_message(b).len() as int,
            ));
            lemma_encode_visuals_injective(v1, v2);
        },
        (ServerMessage::Notify(a1), ServerMessage::Notify(a2)) => {
            assert(spec_encode_server_message(a)[1] == spec_activity_tag(a1));
            assert(spec_encode_server_message(b)[1] == spec_activity_tag(a2));
        },
        (ServerMessage::Display(v1), ServerMessage::Notify(a2)) => {
            assert(spec_encode_server_message(a)[0] == 0);
            assert(spec_encode_server_message(b)[0] == 1);
        },
        (ServerMessage::Notify(a1), ServerMessage::Display(v2)) => {
            assert(spec_encode_server_message(a)[0] == 1);
            assert(spec_encode_server_message(b)[0] == 0);
        },
    }
}

fn encode_activity_tag(a: &Activity) -> (r: u8)
    ensures
        r == spec_activity_tag(*a),
{
    match a {
        Activity::Focus => 0,
        Activity::ShortBreak => 1,
        Activity::LongBreak => 2,
    }
}

fn decode_activity_tag(tag: u8) -> (r: Result<Activity, DeserializeError>)
    ensures
        match r {
            Ok(a) => tag == spec_activity_tag(a),
            Err(_) => tag > 2,
        },
{
    match tag {
        0 => Ok(Activity::Focus),
        1 => Ok(Activity::ShortBreak),
        2 => Ok(Activity::LongBreak),
        _ => Err(DeserializeError),
    }
}

fn encode_event(e: &Event) -> (r: Vec<u8>)
    ensures
        r@ == spec_encode_event(*e),
{
    let mut out: Vec<u8> = Vec::new();
    match e {
        Event::Quit => {
            out.push(0);
            assert(out@ =~= spec_encode_event(*e));
        },
        Event::ToggleTimer => {
            out.push(1);
            assert(out@ =~= spec_encode_event(*e));
        },
        Event::ResetTimer => {
            out.push(2);
            assert(out@ =~= spec_encode_event(*e));
        },
        Event::SkipActivity => {
            out.push(3);
            assert(out@ =~= spec_encode_event(*e));
        },
        Event::ExtendActivity(d) => {
            out.push(4);
            let mut le = u64_to_le_bytes(d.millis);
            out.append(&mut le);
            assert(out@ =~= spec_encode_event(*e));
        },
        Event::ReduceActivity(d) => {
            out.push(5);
            let mut le = u64_to_le_bytes(d.millis);
            out.append(&mut le);
            assert(out@ =~= spec_encode_event(*e));
        },
    }
    out
}

fn decode_event(bytes: &[u8]) -> (r: Result<Event, DeserializeError>)
    ensures
        match r {
            Ok(e) => bytes@ == spec_encode_event(e),
            Err(_) => forall|e: Event| bytes@ != spec_encode_event(e),
        },
{
    if bytes.len() == 0 {
        proof {
            assert forall|e: Event| bytes@ != spec_encode_event(e) by {
                lemma_encode_event_shape(e);
            }
        }
        return Err(DeserializeError);
    }
    let tag = *vstd::slice::slice_index_get(bytes, 0);
    if tag <= 3 && bytes.len() == 1 {
        let e = match tag {
            0 => Event::Quit,
            1 => Event::ToggleTimer,
            2 => Event::ResetTimer,
            _ => Event::SkipActivity,
        };
        assert(bytes@ =~= spec_encode_event(e));
        Ok(e)
    } else if tag >= 4 && tag <= 5 && bytes.len() == 9 {
        let le = vstd::slice::slice_subrange(bytes, 1, 9);
        let millis = u64_from_le_bytes(le);
        let d = SessionDuration { millis };
        let e = if tag == 4 {
            Event::ExtendActivity(d)
        } else {
            Event::ReduceActivity(d)
        };
        proof {
            lemma_auto_spec_u64_to_from_le_bytes();
            assert(le@ =~= bytes@.subrange(1, 9));
            assert(spec_u64_to_le_bytes(millis) =~= bytes@.subrange(1, 9));
            assert(bytes@ =~= spec_encode_event(e));
        }
        Ok(e)
    } else {
        proof {
            assert forall|e: Event| bytes@ != spec_encode_event(e) by {
                lemma_encode_event_shape(e);
                if bytes@ == spec_encode_event(e) {
                    assert(bytes@[0] == spec_event_tag(e));
                }
            }
        }
        Err(DeserializeError)
    }
}

fn encode_visuals(v: &TimerVisuals) -> (r: Vec<u8>)
    ensures
        r@ == spec_encode_visuals(*v),
{
    let mut out = u64_to_le_bytes(v.time_remaining.millis);
    out.push(if v.timer_is_paused {
        1
    } else {
        0
    });
    out.push(encode_activity_tag(&v.activity));
    let mut le16 = u16_to_le_bytes(v.progress_permille);
    out.append(&mut le16);
    let mut le32 = u32_to_le_bytes(v.completed_focus_sessions);
    out.append(&mut le32);
    assert(out@ =~= spec_encode_visuals(*v));
    out
}

fn decode_visuals(bytes: &[u8]) -> (r: Result<TimerVisuals, DeserializeError>)
    ensures
        match r {
            Ok(v) => bytes@ == spec_encode_visuals(v),
            Err(_) => forall|v: TimerVisuals| bytes@ != spec_encode_visuals(v),
        },
{
    if bytes.len() != 16 {
        proof {
            assert forall|v: TimerVisuals| bytes@ != spec_encode_visuals(v) by {
                lemma_encode_visuals_shape(v);
            }
        }
        return Err(DeserializeError);
    }
    let le64 = vstd::slice::slice_subrange(bytes, 0, 8);
    let millis = u64_from_le_bytes(le64);
    let paused_byte = *vstd::slice::slice_index_get(bytes, 8);
    let activity_byte = *vstd::slice::slice_index_get(bytes, 9);
    let le16 = vstd::slice::slice_subrange(bytes, 10, 12);
    let permille = u16_from_le_bytes(le16);
    let le32 = vstd::slice::slice_subrange(bytes, 12, 16);
    let completed = u32_from_le_bytes(le32);

    if paused_byte > 1 {
        proof {
            assert forall|v: TimerVisuals| bytes@ != spec_encode_visuals(v) by {
                lemma_encode_visuals_shape(v);
                if bytes@ == spec_encode_visuals(v) {
                    assert(bytes@[8] == spec_encode_visuals(v)[8]);
                }
            }
        }
        return Err(DeserializeError);
    }
    let activity = match decode_activity_tag(activity_byte) {
        Ok(a) => a,
        Err(e) => {
            proof {
                assert forall|v: TimerVisuals| bytes@ != spec_encode_visuals(v) by {
                    lemma_encode_visuals_shape(v);
                    if bytes@ == spec_encode_visuals(v) {
                        assert(bytes@[9] == spec_encode_visuals(v)[9]);
                    }
                }
            }
            return Err(e);
        },
    };
    let v = TimerVisuals {
        time_remaining: SessionDuration { millis },
        timer_is_paused: paused_byte == 1,
        activity,
        progress_permille: permille,
        completed_focus_sessions: completed,
    };
    proof {
        lemma_auto_spec_u64_to_from_le_bytes();
        lemma_auto_spec_u16_to_from_le_bytes();
        lemma_auto_spec_u32_to_from_le_bytes();
        lemma_encode_visuals_shape(v);
        assert(le64@ =~= bytes@.subrange(0, 8));
        assert(le16@ =~= bytes@.subrange(10, 12));
        assert(le32@ =~= bytes@.subrange(12, 16));
        assert(spec_u64_to_le_bytes(millis) =~= bytes@.subrange(0, 8));
        assert(spec_u16_to_le_bytes(permille) =~= bytes@.subrange(10, 12));
        assert(spec_u32_to_le_bytes(completed) =~= bytes@.subrange(12, 16));
        assert(bytes@ =~= spec_encode_visuals(v));
    }
    Ok(v)
}

impl ClientMessage {
    /// The exact byte encoding of this message.
    pub fn as_bytes(&self) -> (r: Vec<u8>)
        ensures
            r@ == spec_encode_client_message(*self),
    {
        let mut out: Vec<u8> = Vec::new();
        out.push(0);
        match self {
            ClientMessage::Event(e) => {
                let mut ev = encode_event(e);
                out.append(&mut ev);
            },
        }
        assert(out@ =~= spec_encode_client_message(*self));
        out
    }

    /// Decodes a message; succeeds exactly on the byte strings `as_bytes`
    /// produces.
    pub fn from_bytes(bytes: &[u8]) -> (r: Result<ClientMessage, DeserializeError>)
        ensures
            match r {
                Ok(m) => bytes@ == spec_encode_client_message(m),
                Err(_) => forall|m: ClientMessage| bytes@ != spec_encode_client_message(m),
            },
    {
        if bytes.len() == 0 || *vstd::slice::slice_index_get(bytes, 0) != 0 {
            proof {
                assert forall|m: ClientMessage| bytes@ != spec_encode_client_message(m) by {
                    match m {
                        ClientMessage::Event(e) => {
                            lemma_encode_event_shape(e);
                            if bytes@ == spec_encode_client_message(m) {
                                assert(bytes@[0] == 0);
                            }
                        },
                    }
                }
            }
            return Err(DeserializeError);
        }
        let rest = vstd::slice::slice_subrange(bytes, 1, bytes.len());
        match decode_event(rest) {
            Ok(e) => {
                let m = ClientMessage::Event(e);
                assert(bytes@ =~= spec_encode_client_message(m));
                Ok(m)
            },
            Err(err) => {
                proof {
                    assert forall|m: ClientMessage| bytes@ != spec_encode_client_message(m) by {
                        match m {
                            ClientMessage::Event(e) => {
                                if bytes@ == spec_encode_client_message(m) {
                                    assert(rest@ =~= spec_encode_event(e));
                                }
                            },
                        }
                    }
                }
                Err(err)
            },
        }
    }
}

impl ServerMessage {
    /// The exact byte encoding of this message.
    pub fn as_bytes(&self) -> (r: Vec<u8>)
        ensures
            r@ == spec_encode_server_message(*self),
    {
        let mut out: Vec<u8> = Vec::new();
        match self {
            ServerMessage::Display(v) => {
                out.push(0);
                let mut enc = encode_visuals(v);
                out.append(&mut enc);
            },
            ServerMessage::Notify(a) => {
                out.push(1);
                out.push(encode_activity_tag(a));
            },
        }
        assert(out@ =~= spec_encode_server_message(*self));
        out
    }

    /// Decodes a message; succeeds exactly on the byte strings `as_bytes`
    /// produces.
    pub fn from_bytes(bytes: &[u8]) -> (r: Result<ServerMessage, DeserializeError>)
        ensures
            match r {
                Ok(m) => bytes@ == spec_encode_server_message(m),
                Err(_) => forall|m: ServerMessage| bytes@ != spec_encode_server_message(m),
            },
    {
        if bytes.len() == 0 {
            proof {
                assert forall|m: ServerMessage| bytes@ != spec_encode_server_message(m) by {
                    match m {
                        ServerMessage::Display(v) => {},
                        ServerMessage::Notify(a) => {},
                    }
                }
            }
            return Err(DeserializeError);
        }
        let tag = *vstd::slice::slice_index_get(bytes, 0);
        if tag == 0 {
            let rest = vstd::slice::slice_subrange(bytes, 1, bytes.len());
            match decode_visuals(rest) {
                Ok(v) => {
                    let m = ServerMessage::Display(v);
                    assert(bytes@ =~= spec_encode_server_message(m));
                    Ok(m)
                },
                Err(err) => {
                    proof {
                        assert forall|m: ServerMessage| bytes@ != spec_encode_server_message(
                            m,
                        ) by {
                            match m {
                                ServerMessage::Display(v) => {
                                    if bytes@ == spec_encode_server_message(m) {
                                        assert(rest@ =~= spec_encode_visuals(v));
                                    }
                                },
                                ServerMessage::Notify(a) => {
                                    if bytes@ == spec_encode_server_message(m) {
                                        assert(bytes@[0] == 1);
                                    }
                                },
                            }
                        }
                    }
                    Err(err)
                },
            }
        } else if tag == 1 && bytes.len() == 2 {
            let activity_byte = *vstd::slice::slice_index_get(bytes, 1);
            match decode_activity_tag(activity_byte) {
                Ok(a) => {
                    let m = ServerMessage::Notify(a);
                    assert(bytes@ =~= spec_encode_server_message(m));
                    Ok(m)
                },
                Err(err) => {
                    proof {
                        assert forall|m: ServerMessage| bytes@ != spec_encode_server_message(
                            m,
                        ) by {
                            match m {
                                ServerMessage::Display(v) => {
                                    if bytes@ == spec_encode_server_message(m) {
                                        assert(bytes@[0] == 0);
                                    }
                                },
                                ServerMessage::Notify(a) => {
                                    if bytes@ == spec_encode_server_message(m) {
                                        assert(bytes@[1] == spec_activity_tag(a));
                                    }
                                },
                            }
                        }
                    }
                    Err(err)
                },
            }
        } else {
            proof {
                assert forall|m: ServerMessage| bytes@ != spec_encode_server_message(m) by {
                    match m {
                        ServerMessage::Display(v) => {
                            lemma_encode_visuals_shape(v);
                            if bytes@ == spec_encode_server_message(m) {
                                assert(bytes@[0] == 0);
                            }
                        },
                        ServerMessage::Notify(a) => {
                            if bytes@ == spec_encode_server_message(m) {
                                assert(bytes@[0] == 1);
                                assert(bytes@.len() == 2);
                            }
                        },
                    }
                }
            }
            Err(DeserializeError)
        }
    }
}

} // verus!
