use crate::close_code::GatewayCloseCode;
use crate::gateway_event::GatewayEvent;
use crate::gateway_event::GatewayMessage;
use crate::gateway_event::PresenceUpdatePayload;
use crate::gateway_event::ReadyPayload;
use crate::guild::Guild;
use crate::presence::Presence;
use crate::registry::GatewayResponse;
use crate::snowflake::Snowflake;
use crate::snowflake::UserKind;
use crate::user::User;
use crate::wire::encode_event;
use crate::wire::event_json;
use crate::wire::spec_parse_client_frame;
use crate::wire::ClientFrameView;
use crate::gateway_event::GuildCreatePayload;
use vstd::prelude::*;
use vstd::string::StringSliceAdditionalSpecFns;
use vstd::utf8::encode_utf8;

verus! {

/// Default heartbeat interval in milliseconds.
pub const HEARTBEAT_INTERVAL: u64 = 45000;

/// Grace added to the heartbeat interval before the watchdog fires,
/// in milliseconds.
pub const HEARTBEAT_GRACE: u64 = 5000;

/// The full heartbeat deadline: interval plus grace.
pub fn heartbeat_deadline(interval_ms: u64) -> (r: u64)
    requires
        interval_ms + HEARTBEAT_GRACE <= u64::MAX,
    ensures
        r == interval_ms + HEARTBEAT_GRACE,
{
    interval_ms + HEARTBEAT_GRACE
}

// ---------------------------------------------------------------
// Writer
// ---------------------------------------------------------------

/// What the writer does with one queued response.
pub enum WriterAction {
    /// Write this text frame on the socket and keep draining.
    WriteFrame(Vec<u8>),
    /// Write a close frame with this code and reason, then exit.
    WriteClose(u16, String),
}

/// One step of the writer: turn the next queued response into the
/// bytes to put on the socket. The writer exits exactly on a close.
pub fn writer_step(resp: &GatewayResponse) -> (r: (WriterAction, bool))
    ensures
        resp matches GatewayResponse::Event(e) ==> (r.0 matches WriterAction::WriteFrame(frame)
            && frame@ == event_json(e@) && r.1 == false),
        resp matches GatewayResponse::Close(c, reason) ==> (r.0 matches WriterAction::WriteClose(
            code,
            rs,
        ) && code == c.spec_code() && rs@ == reason@ && r.1 == true),
{
    match resp {
        GatewayResponse::Event(e) => (WriterAction::WriteFrame(encode_event(&*e)), false),
        GatewayResponse::Close(c, reason) => (
            WriterAction::WriteClose(c.code(), reason.clone()),
            true,
        ),
    }
}

/// The position of the first close in a queue, or the queue's length
/// when no close is queued. The writer never reads past it.
pub open spec fn first_close_index(q: Seq<GatewayResponse>) -> int
    decreases q.len(),
{
    if q.len() == 0 {
        0
    } else {
        match q[0] {
            GatewayResponse::Close(_, _) => 0,
            GatewayResponse::Event(_) => 1 + first_close_index(q.drop_first()),
        }
    }
}

/// The text frames a writer draining this queue writes, in order.
pub open spec fn written_frames(q: Seq<GatewayResponse>) -> Seq<Seq<u8>>
    decreases q.len(),
{
    if q.len() == 0 {
        Seq::empty()
    } else {
        match q[0] {
            GatewayResponse::Close(_, _) => Seq::empty(),
            GatewayResponse::Event(e) => seq![event_json(e@)] + written_frames(q.drop_first()),
        }
    }
}

/// Round trip through the writer: every event queued before the
/// first close is written as exactly one frame, at its queue
/// position — never duplicated, never reordered — and nothing at or
/// after the first close is ever written.
pub proof fn lemma_writer_exactly_once(q: Seq<GatewayResponse>)
    ensures
        0 <= first_close_index(q) <= q.len(),
        written_frames(q).len() == first_close_index(q),
        forall|i: int| 0 <= i < first_close_index(q) ==> q[i] is Event,
        forall|i: int|
            0 <= i < first_close_index(q) ==> (#[trigger] q[i] matches GatewayResponse::Event(e)
                && written_frames(q)[i] == event_json(e@)),
        forall|j: int| 0 <= j < q.len() && q[j] is Close ==> written_frames(q).len() <= j,
        first_close_index(q) < q.len() ==> q[first_close_index(q)] is Close,
    decreases q.len(),
{
    if q.len() > 0 {
        lemma_writer_exactly_once(q.drop_first());
        match q[0] {
            GatewayResponse::Close(_, _) => {},
            GatewayResponse::Event(_) => {
                assert forall|i: int| 0 <= i < first_close_index(q) implies (#[trigger] q[i]
                    matches GatewayResponse::Event(e) && written_frames(q)[i] == event_json(
                    e@,
                )) by {
                    if i >= 1 {
                        assert(q.drop_first()[i - 1] == q[i]);
                        assert(written_frames(q)[i] == written_frames(q.drop_first())[i - 1]);
                    }
                }
                assert forall|j: int| 0 <= j < q.len() && q[j] is Close implies written_frames(
                    q,
                ).len() <= j by {
                    assert(j >= 1);
                    assert(q.drop_first()[j - 1] == q[j]);
                }
            },
        }
    }
}

/// Round trip for one enqueue: an event appended to a handle's queue
/// is written as exactly one frame, after everything queued before
/// it — unless a close was already queued, in which case the writer
/// exits first and the event is dropped. It is never duplicated and
/// never reordered.
pub proof fn lemma_enqueued_event_written_or_dropped(
    oldq: Seq<GatewayResponse>,
    newq: Seq<GatewayResponse>,
    e: GatewayEvent,
)
    requires
        crate::registry::enqueued_event(oldq, newq, e),
    ensures
        first_close_index(oldq) == oldq.len() ==> written_frames(newq) == written_frames(
            oldq,
        ).push(event_json(e@)),
        first_close_index(oldq) < oldq.len() ==> written_frames(newq) == written_frames(oldq),
    decreases oldq.len(),
{
    lemma_writer_exactly_once(oldq);
    if oldq.len() == 0 {
        assert(newq[0] == newq.last());
        match newq[0] {
            GatewayResponse::Event(a) => {
                assert(a == e);
                assert(newq.drop_first().len() == 0);
                assert(written_frames(newq.drop_first()) =~= Seq::<Seq<u8>>::empty());
                assert(written_frames(newq) =~= seq![event_json(e@)]);
                assert(written_frames(newq) =~= written_frames(oldq).push(event_json(e@)));
            },
            GatewayResponse::Close(_, _) => {},
        }
    } else {
        assert(newq[0] == oldq[0]) by {
            assert(newq.subrange(0, oldq.len() as int)[0] == newq[0]);
        }
        match oldq[0] {
            GatewayResponse::Close(_, _) => {
                assert(first_close_index(oldq) == 0);
            },
            GatewayResponse::Event(_) => {
                assert(crate::registry::enqueued_event(
                    oldq.drop_first(),
                    newq.drop_first(),
                    e,
                )) by {
                    assert(newq.drop_first().subrange(0, oldq.len() - 1) =~= oldq.drop_first());
                    assert(newq.drop_first().last() == newq.last());
                }
                lemma_enqueued_event_written_or_dropped(oldq.drop_first(), newq.drop_first(), e);
                if first_close_index(oldq) == oldq.len() {
                    assert(written_frames(newq) =~= written_frames(oldq).push(event_json(e@)));
                } else {
                    assert(written_frames(newq) =~= written_frames(oldq));
                }
            },
        }
    }
}

/// Drain a whole queue the way the writer does: collect the frames
/// written in order, and the close frame that ends the session, if
/// one was queued.
pub fn run_writer(queue: &Vec<GatewayResponse>) -> (r: (Vec<Vec<u8>>, Option<(u16, String)>))
    ensures
        r.0@.len() == written_frames(queue@).len(),
        forall|i: int|
            0 <= i < r.0@.len() ==> (#[trigger] r.0@[i])@ == written_frames(queue@)[i],
        r.1 is Some <==> first_close_index(queue@) < queue@.len(),
        r.1 matches Some((code, reason)) ==> (queue@[first_close_index(queue@)]
            matches GatewayResponse::Close(c, rs) && code == c.spec_code() && reason@ == rs@),
{
    let n = queue.len();
    let mut frames: Vec<Vec<u8>> = Vec::new();
    let mut i: usize = 0;
    proof {
        lemma_writer_exactly_once(queue@);
    }
    while i < n
        invariant
            n == queue@.len(),
            0 <= i <= n,
            i <= first_close_index(queue@),
            frames@.len() == i,
            forall|k: int|
                0 <= k < i ==> (#[trigger] frames@[k])@ == written_frames(queue@)[k],
            written_frames(queue@).len() == first_close_index(queue@),
            first_close_index(queue@) <= n,
            forall|k: int|
                0 <= k < first_close_index(queue@) ==> (#[trigger] queue@[k]
                    matches GatewayResponse::Event(e) && written_frames(queue@)[k] == event_json(
                    e@,
                )),
            forall|k: int| 0 <= k < first_close_index(queue@) ==> queue@[k] is Event,
            forall|j: int|
                0 <= j < n && queue@[j] is Close ==> first_close_index(queue@) <= j,
            first_close_index(queue@) < n ==> queue@[first_close_index(queue@)] is Close,
        decreases n - i,
    {
        let (action, _) = writer_step(&queue[i]);
        match action {
            WriterAction::WriteFrame(frame) => {
                proof {
                    if first_close_index(queue@) <= i {
                        assert(queue@[first_close_index(queue@)] is Close);
                    }
                }
                frames.push(frame);
            },
            WriterAction::WriteClose(code, reason) => {
                proof {
                    assert(queue@[i as int] is Close);
                    assert(first_close_index(queue@) <= i);
                    assert(first_close_index(queue@) == i);
                }
                return (frames, Some((code, reason)));
            },
        }
        i += 1;
    }
    proof {
        assert(first_close_index(queue@) == n);
    }
    (frames, None)
}

// ---------------------------------------------------------------
// Reader
// ---------------------------------------------------------------

/// What the reader receives from the socket.
pub enum InboundFrame {
    /// A text frame with its content.
    Text(String),
    /// A binary or otherwise unsupported frame, or a read error.
    Unsupported,
    /// The client sent a close frame.
    CloseFrame,
}

/// What the reader does with one inbound frame.
pub enum ReaderAction {
    /// Publish the parsed message on the inbound bus and keep reading.
    Publish(GatewayMessage),
    /// Ask the writer to close with this code and reason, then exit.
    CloseWith(GatewayCloseCode, String),
    /// Stop reading.
    Exit,
}

/// One step of the reader: a close frame ends the task, a non-text
/// frame costs the client the connection, and a text frame is parsed
/// against the inbound grammar — valid messages are published,
/// anything else closes the connection as an invalid payload.
pub fn reader_step(frame: InboundFrame) -> (r: ReaderAction)
    ensures
        frame is CloseFrame ==> r is Exit,
        frame is Unsupported ==> (r matches ReaderAction::CloseWith(c, reason) && c
            == GatewayCloseCode::Unsupported && reason@ == "Unsupported message encoding"@),
        frame matches InboundFrame::Text(t) ==> match spec_parse_client_frame(encode_utf8(t@)) {
            Some(ClientFrameView::Heartbeat) => r matches ReaderAction::Publish(
                GatewayMessage::Heartbeat,
            ),
            Some(ClientFrameView::Identify { token }) => (r matches ReaderAction::Publish(m) && m
                matches GatewayMessage::Identify(p) && p.token@ == token.map_values(
                |b: u8| b as char,
            )),
            None => (r matches ReaderAction::CloseWith(c, reason) && c
                == GatewayCloseCode::InvalidPayload && reason@ == "Invalid request payload"@),
        },
{
    match frame {
        InboundFrame::CloseFrame => ReaderAction::Exit,
        InboundFrame::Unsupported => ReaderAction::CloseWith(
            GatewayCloseCode::Unsupported,
            "Unsupported message encoding".to_owned(),
        ),
        InboundFrame::Text(t) => match crate::wire::parse_client_message(t.as_str()) {
            Some(msg) => ReaderAction::Publish(msg),
            None => ReaderAction::CloseWith(
                GatewayCloseCode::InvalidPayload,
                "Invalid request payload".to_owned(),
            ),
        },
    }
}

// ---------------------------------------------------------------
// Heartbeat watchdog
// ---------------------------------------------------------------

/// What wakes the watchdog.
pub enum WatchdogInput {
    /// A message was published on the inbound bus.
    Message(GatewayMessage),
    /// The inbound bus is gone or the watchdog fell behind it.
    BusClosed,
    /// No heartbeat arrived within the interval plus grace.
    Timeout,
}

/// What the watchdog does next.
pub enum WatchdogAction {
    /// Acknowledge a heartbeat and keep waiting.
    ReplyAck,
    /// Keep waiting for a heartbeat.
    KeepWaiting,
    /// Ask the writer to close with this code and reason, then exit.
    CloseSession(GatewayCloseCode, String),
}

/// One step of the watchdog: a heartbeat is acknowledged, other
/// messages are ignored, and a timeout or a broken bus ends the
/// session — the close is queued at once, so once the watchdog
/// fires the connection terminates as soon as the writer drains it.
pub fn watchdog_step(input: WatchdogInput) -> (r: (WatchdogAction, bool))
    ensures
        input matches WatchdogInput::Message(GatewayMessage::Heartbeat) ==> r == (
            WatchdogAction::ReplyAck,
            false,
        ),
        (input matches WatchdogInput::Message(m) && !(m is Heartbeat)) ==> r == (
            WatchdogAction::KeepWaiting,
            false,
        ),
        input is BusClosed ==> (r.0 matches WatchdogAction::CloseSession(c, reason) && c
            == GatewayCloseCode::InvalidPayload && reason@ == "Invalid payload"@ && r.1 == true),
        input is Timeout ==> (r.0 matches WatchdogAction::CloseSession(c, reason) && c
            == GatewayCloseCode::PolicyViolation && reason@
            == "No HEARTBEAT received within timeframe"@ && r.1 == true),
{
    match input {
        WatchdogInput::Message(GatewayMessage::Heartbeat) => (WatchdogAction::ReplyAck, false),
        WatchdogInput::Message(_) => (WatchdogAction::KeepWaiting, false),
        WatchdogInput::BusClosed => (
            (WatchdogAction::CloseSession(
                GatewayCloseCode::InvalidPayload,
                "Invalid payload".to_owned(),
            )),
            true,
        ),
        WatchdogInput::Timeout => (
            (WatchdogAction::CloseSession(
                GatewayCloseCode::PolicyViolation,
                "No HEARTBEAT received within timeframe".to_owned(),
            )),
            true,
        ),
    }
}

// ---------------------------------------------------------------
// Seeder and teardown
// ---------------------------------------------------------------

/// The frames the seeder sends on a fresh connection, in order: the
/// ready event, then one guild-create per guild; and the presence
/// update to dispatch to peers afterwards, owed exactly when the
/// user's persisted presence is not offline.
pub fn seeder_plan(user: User, guilds: Vec<Guild>, payloads: Vec<GuildCreatePayload>) -> (r: (
    Vec<GatewayEvent>,
    Option<GatewayEvent>,
))
    ensures
        r.0@.len() == 1 + payloads@.len(),
        (r.0@[0] matches GatewayEvent::Ready(p) && p.user == user && p.guilds == guilds),
        forall|i: int|
            0 <= i < payloads@.len() ==> (#[trigger] r.0@[i + 1] matches GatewayEvent::GuildCreate(
                p,
            ) && p == payloads@[i]),
        user.last_presence != Presence::Offline ==> (r.1 matches Some(
            GatewayEvent::PresenceUpdate(p),
        ) && p.user_id == user.id && p.presence == user.last_presence),
        user.last_presence == Presence::Offline ==> r.1 is None,
{
    let user_id = user.id;
    let last_presence = user.last_presence;
    let ghost u0 = user;
    let ghost gl0 = guilds;
    let mut events: Vec<GatewayEvent> = Vec::new();
    events.push(GatewayEvent::Ready(ReadyPayload { user, guilds }));
    let n = payloads.len();
    let mut payloads = payloads;
    let ghost pv = payloads@;
    let mut i: usize = 0;
    while i < n
        invariant
            n == pv.len(),
            payloads@ == pv.skip(i as int),
            0 <= i <= n,
            events@.len() == 1 + i,
            (events@[0] matches GatewayEvent::Ready(p) && p.user == u0 && p.guilds == gl0),
            forall|k: int|
                0 <= k < i ==> (#[trigger] events@[k + 1] matches GatewayEvent::GuildCreate(p) && p
                    == pv[k]),
        decreases n - i,
    {
        proof {
            assert(pv.skip(i as int)[0] == pv[i as int]);
            assert(pv.skip(i as int).drop_first() =~= pv.skip(i + 1));
        }
        let p = payloads.remove(0);
        events.push(GatewayEvent::GuildCreate(p));
        i += 1;
    }
    let update: Option<GatewayEvent> = match last_presence {
        Presence::Offline => None,
        _ => Some(
            GatewayEvent::PresenceUpdate(
                PresenceUpdatePayload { user_id, presence: last_presence },
            ),
        ),
    };
    (events, update)
}

/// The presence update owed to peers when a connection ends: the
/// user goes offline for everyone, unless their persisted presence
/// already was offline.
pub fn teardown_event(user_id: Snowflake<UserKind>, persisted: Presence) -> (r: Option<
    GatewayEvent,
>)
    ensures
        persisted != Presence::Offline ==> (r matches Some(GatewayEvent::PresenceUpdate(p))
            && p.user_id == user_id && p.presence == Presence::Offline),
        persisted == Presence::Offline ==> r is None,
{
    match persisted {
        Presence::Offline => None,
        _ => Some(
            GatewayEvent::PresenceUpdate(
                PresenceUpdatePayload { user_id, presence: Presence::Offline },
            ),
        ),
    }
}

} // verus!
