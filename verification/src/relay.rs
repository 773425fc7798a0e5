//! The relay policy of a session: what each forwarding loop does with every
//! frame it reads, which events end a loop, and what the session's teardown
//! writes to the side that did not end it.
//!
//! A session pairs one downstream (client-facing) socket with one upstream
//! (agent-facing) socket and runs two forwarding loops, one per direction.
//! The functions here are the decisions of those loops; the surrounding
//! process performs the actual socket reads and writes and feeds every read
//! event through them.

use vstd::prelude::*;
use vstd::seq_lib::*;
use vstd::string::*;
use crate::close::{get_safe_close_code, legal_close_code, safe_close_code};

verus! {

/// A close frame: numeric code and reason text.
#[derive(Debug)]
pub struct CloseFrame {
    pub code: u16,
    pub reason: String,
}

/// One WebSocket message as the relay sees it.
#[derive(Debug)]
pub enum Frame {
    Text(String),
    Binary(Vec<u8>),
    Ping(Vec<u8>),
    Pong(Vec<u8>),
    Close(Option<CloseFrame>),
    /// Any other raw control frame; it has no cross-transport representation
    /// and is never forwarded.
    Raw,
}

/// What one attempt to read the next frame from a socket produced.
#[derive(Debug)]
pub enum ReadEvent {
    Frame(Frame),
    /// The transport reported a read error.
    ReadError,
    /// The stream ended without a close frame.
    Ended,
}

/// Why a session left its relaying state. The loop that ends first determines
/// the cause and is authoritative for the teardown.
#[derive(Debug, Clone, Copy, PartialEq, Eq, Structural)]
pub enum Cause {
    /// The upstream peer closed (close frame received, or its stream ended).
    UpstreamClosed,
    /// Reading from upstream failed.
    UpstreamReadError,
    /// The downstream client closed (close frame received, or its stream
    /// ended).
    ClientClosed,
    /// Reading from the downstream client failed.
    DownstreamReadError,
}

/// What a forwarding loop must do with one read event.
#[derive(Debug)]
pub enum Action {
    /// Write the frame to the destination and keep relaying; a write error
    /// ends the session for this direction.
    ForwardData(Frame),
    /// Echo the control frame to the destination and keep relaying; a write
    /// error on the echo is ignored.
    ForwardControl(Frame),
    /// Send this close frame to the destination, then end the loop with the
    /// cause.
    CloseAndStop(CloseFrame, Cause),
    /// Drop the frame and keep relaying.
    Ignore,
    /// End the loop with the cause, writing nothing.
    Stop(Cause),
}

/// A frame as its mathematical value.
pub enum FrameModel {
    Text(Seq<char>),
    Binary(Seq<u8>),
    Ping(Seq<u8>),
    Pong(Seq<u8>),
    Close(Option<(u16, Seq<char>)>),
    Raw,
}

/// A read event as its mathematical value.
pub enum EventModel {
    Frame(FrameModel),
    ReadError,
    Ended,
}

/// The mathematical value of an optional close frame.
pub open spec fn close_model(cf: Option<CloseFrame>) -> Option<(u16, Seq<char>)> {
    match cf {
        Some(c) => Some((c.code, c.reason@)),
        None => None,
    }
}

impl View for Frame {
    type V = FrameModel;

    open spec fn view(&self) -> FrameModel {
        match self {
            Frame::Text(s) => FrameModel::Text(s@),
            Frame::Binary(b) => FrameModel::Binary(b@),
            Frame::Ping(b) => FrameModel::Ping(b@),
            Frame::Pong(b) => FrameModel::Pong(b@),
            Frame::Close(cf) => FrameModel::Close(close_model(*cf)),
            Frame::Raw => FrameModel::Raw,
        }
    }
}

impl View for ReadEvent {
    type V = EventModel;

    open spec fn view(&self) -> EventModel {
        match self {
            ReadEvent::Frame(f) => EventModel::Frame(f@),
            ReadEvent::ReadError => EventModel::ReadError,
            ReadEvent::Ended => EventModel::Ended,
        }
    }
}

/// The close frame delivered downstream for a close frame read from
/// upstream: the code is sanitized, the reason passes through unchanged; a
/// close without a payload becomes code `1000` with an empty reason.
pub open spec fn downstream_close_of(cf: Option<(u16, Seq<char>)>) -> (u16, Seq<char>) {
    match cf {
        Some(c) => (safe_close_code(c.0), c.1),
        None => (1000u16, Seq::<char>::empty()),
    }
}

/// The frames written downstream for one event read from upstream: text,
/// binary, ping and pong pass through unchanged; a close frame is forwarded
/// with a sanitized code and the original reason; a read error turns into a
/// normal close with an empty reason; raw frames and the end of the stream
/// produce nothing.
pub open spec fn upstream_writes(ev: EventModel) -> Seq<FrameModel> {
    match ev {
        EventModel::Frame(f) => match f {
            FrameModel::Text(_) => seq![f],
            FrameModel::Binary(_) => seq![f],
            FrameModel::Ping(_) => seq![f],
            FrameModel::Pong(_) => seq![f],
            FrameModel::Close(cf) => seq![FrameModel::Close(Some(downstream_close_of(cf)))],
            FrameModel::Raw => Seq::<FrameModel>::empty(),
        },
        EventModel::ReadError => seq![FrameModel::Close(Some((1000u16, Seq::<char>::empty())))],
        EventModel::Ended => Seq::<FrameModel>::empty(),
    }
}

/// Whether an upstream event ends the upstream-to-downstream loop, and with
/// which cause.
pub open spec fn upstream_stop(ev: EventModel) -> Option<Cause> {
    match ev {
        EventModel::Frame(f) => if f is Close {
            Some(Cause::UpstreamClosed)
        } else {
            None
        },
        EventModel::ReadError => Some(Cause::UpstreamReadError),
        EventModel::Ended => Some(Cause::UpstreamClosed),
    }
}

/// The frames written upstream for one event read from the downstream
/// client: text, binary, ping and pong pass through unchanged; a close frame
/// from the client is not forwarded (the teardown sends its own close
/// upstream); raw frames, read errors and the end of the stream produce
/// nothing.
pub open spec fn downstream_writes(ev: EventModel) -> Seq<FrameModel> {
    match ev {
        EventModel::Frame(f) => match f {
            FrameModel::Text(_) => seq![f],
            FrameModel::Binary(_) => seq![f],
            FrameModel::Ping(_) => seq![f],
            FrameModel::Pong(_) => seq![f],
            FrameModel::Close(_) => Seq::<FrameModel>::empty(),
            FrameModel::Raw => Seq::<FrameModel>::empty(),
        },
        EventModel::ReadError => Seq::<FrameModel>::empty(),
        EventModel::Ended => Seq::<FrameModel>::empty(),
    }
}

/// Whether a downstream event ends the downstream-to-upstream loop, and with
/// which cause.
pub open spec fn downstream_stop(ev: EventModel) -> Option<Cause> {
    match ev {
        EventModel::Frame(f) => if f is Close {
            Some(Cause::ClientClosed)
        } else {
            None
        },
        EventModel::ReadError => Some(Cause::DownstreamReadError),
        EventModel::Ended => Some(Cause::ClientClosed),
    }
}

/// The frames an action writes to its destination.
pub open spec fn action_writes(a: Action) -> Seq<FrameModel> {
    match a {
        Action::ForwardData(f) => seq![f@],
        Action::ForwardControl(f) => seq![f@],
        Action::CloseAndStop(c, _) => seq![FrameModel::Close(Some((c.code, c.reason@)))],
        Action::Ignore => Seq::<FrameModel>::empty(),
        Action::Stop(_) => Seq::<FrameModel>::empty(),
    }
}

/// Whether an action ends its loop, and with which cause.
pub open spec fn action_stop(a: Action) -> Option<Cause> {
    match a {
        Action::ForwardData(_) => None,
        Action::ForwardControl(_) => None,
        Action::CloseAndStop(_, cause) => Some(cause),
        Action::Ignore => None,
        Action::Stop(cause) => Some(cause),
    }
}

/// Decide what the upstream-to-downstream loop does with one event read from
/// upstream: data frames and control echoes pass through byte-identical, a
/// close frame is forwarded with a sanitized code and the original reason, a
/// read error becomes a normal close with an empty reason, raw frames are
/// dropped.
pub fn upstream_action(ev: ReadEvent) -> (a: Action)
    ensures
        action_writes(a) == upstream_writes(ev@),
        action_stop(a) == upstream_stop(ev@),
        (match ev {
            ReadEvent::Frame(f) => match f {
                Frame::Text(_) => a == Action::ForwardData(f),
                Frame::Binary(_) => a == Action::ForwardData(f),
                Frame::Ping(_) => a == Action::ForwardControl(f),
                Frame::Pong(_) => a == Action::ForwardControl(f),
                Frame::Close(_) => a matches Action::CloseAndStop(c, cz) && legal_close_code(
                    c.code,
                ) && cz == Cause::UpstreamClosed,
                Frame::Raw => a == Action::Ignore,
            },
            ReadEvent::ReadError => a matches Action::CloseAndStop(c, cz) && c.code == 1000
                && c.reason@ == Seq::<char>::empty() && cz == Cause::UpstreamReadError,
            ReadEvent::Ended => a == Action::Stop(Cause::UpstreamClosed),
        }),
{
    match ev {
        ReadEvent::Frame(f) => match f {
            Frame::Text(_) => Action::ForwardData(f),
            Frame::Binary(_) => Action::ForwardData(f),
            Frame::Ping(_) => Action::ForwardControl(f),
            Frame::Pong(_) => Action::ForwardControl(f),
            Frame::Close(cf) => {
                let out = match cf {
                    Some(c) => CloseFrame { code: get_safe_close_code(c.code), reason: c.reason },
                    None => CloseFrame { code: 1000, reason: String::new() },
                };
                Action::CloseAndStop(out, Cause::UpstreamClosed)
            },
            Frame::Raw => Action::Ignore,
        },
        ReadEvent::ReadError => Action::CloseAndStop(
            CloseFrame { code: 1000, reason: String::new() },
            Cause::UpstreamReadError,
        ),
        ReadEvent::Ended => Action::Stop(Cause::UpstreamClosed),
    }
}

/// Decide what the downstream-to-upstream loop does with one event read from
/// the client: data frames and control echoes pass through byte-identical; a
/// close frame from the client ends the loop at once, without translation or
/// forwarding; raw frames are dropped.
pub fn downstream_action(ev: ReadEvent) -> (a: Action)
    ensures
        action_writes(a) == downstream_writes(ev@),
        action_stop(a) == downstream_stop(ev@),
        (match ev {
            ReadEvent::Frame(f) => match f {
                Frame::Text(_) => a == Action::ForwardData(f),
                Frame::Binary(_) => a == Action::ForwardData(f),
                Frame::Ping(_) => a == Action::ForwardControl(f),
                Frame::Pong(_) => a == Action::ForwardControl(f),
                Frame::Close(_) => a == Action::Stop(Cause::ClientClosed),
                Frame::Raw => a == Action::Ignore,
            },
            ReadEvent::ReadError => a == Action::Stop(Cause::DownstreamReadError),
            ReadEvent::Ended => a == Action::Stop(Cause::ClientClosed),
        }),
{
    match ev {
        ReadEvent::Frame(f) => match f {
            Frame::Text(_) => Action::ForwardData(f),
            Frame::Binary(_) => Action::ForwardData(f),
            Frame::Ping(_) => Action::ForwardControl(f),
            Frame::Pong(_) => Action::ForwardControl(f),
            Frame::Close(_) => Action::Stop(Cause::ClientClosed),
            Frame::Raw => Action::Ignore,
        },
        ReadEvent::ReadError => Action::Stop(Cause::DownstreamReadError),
        ReadEvent::Ended => Action::Stop(Cause::ClientClosed),
    }
}

/// The close frame the session's teardown writes after the first loop has
/// ended: when the client side ended the session, the upstream peer is told
/// `1000` "Client disconnected", whatever the client sent; when the upstream
/// side ended it, nothing more is written (the loop itself already delivered
/// any close frame downstream) and the sockets are closed.
pub fn teardown_frame(cause: Cause) -> (r: Option<CloseFrame>)
    ensures
        (cause is ClientClosed || cause is DownstreamReadError) ==> (r matches Some(c) && c.code
            == 1000 && c.reason@ == "Client disconnected"@),
        (cause is UpstreamClosed || cause is UpstreamReadError) ==> r is None,
{
    match cause {
        Cause::ClientClosed | Cause::DownstreamReadError => Some(
            CloseFrame { code: 1000, reason: String::from_str("Client disconnected") },
        ),
        Cause::UpstreamClosed | Cause::UpstreamReadError => None,
    }
}

/// The models of a sequence of frames.
pub open spec fn frames_model(s: Seq<Frame>) -> Seq<FrameModel> {
    s.map_values(|f: Frame| f@)
}

/// The models of a sequence of read events.
pub open spec fn events_model(s: Seq<ReadEvent>) -> Seq<EventModel> {
    s.map_values(|e: ReadEvent| e@)
}

/// Everything the downstream peer receives when the upstream peer produces
/// the given events: the writes for each event, in order, up to and
/// including the first terminating one.
pub open spec fn upstream_loop_writes(events: Seq<EventModel>) -> Seq<FrameModel>
    decreases events.len(),
{
    if events.len() == 0 {
        Seq::<FrameModel>::empty()
    } else if upstream_stop(events[0]) is Some {
        upstream_writes(events[0])
    } else {
        upstream_writes(events[0]) + upstream_loop_writes(events.skip(1))
    }
}

/// The cause with which the upstream-to-downstream loop ends on the given
/// events, if it ends.
pub open spec fn upstream_loop_cause(events: Seq<EventModel>) -> Option<Cause>
    decreases events.len(),
{
    if events.len() == 0 {
        None::<Cause>
    } else if upstream_stop(events[0]) is Some {
        upstream_stop(events[0])
    } else {
        upstream_loop_cause(events.skip(1))
    }
}

/// Everything the upstream peer receives when the downstream client produces
/// the given events.
pub open spec fn downstream_loop_writes(events: Seq<EventModel>) -> Seq<FrameModel>
    decreases events.len(),
{
    if events.len() == 0 {
        Seq::<FrameModel>::empty()
    } else if downstream_stop(events[0]) is Some {
        downstream_writes(events[0])
    } else {
        downstream_writes(events[0]) + downstream_loop_writes(events.skip(1))
    }
}

/// The cause with which the downstream-to-upstream loop ends on the given
/// events, if it ends.
pub open spec fn downstream_loop_cause(events: Seq<EventModel>) -> Option<Cause>
    decreases events.len(),
{
    if events.len() == 0 {
        None::<Cause>
    } else if downstream_stop(events[0]) is Some {
        downstream_stop(events[0])
    } else {
        downstream_loop_cause(events.skip(1))
    }
}

/// Run the upstream-to-downstream forwarding policy over a finished sequence
/// of read events, as against a mock peer whose writes all succeed: returns
/// the frames delivered downstream and the cause the loop ended with, if a
/// terminating event was reached.
pub fn relay_upstream_events(events: Vec<ReadEvent>) -> (r: (Vec<Frame>, Option<Cause>))
    ensures
        frames_model(r.0@) == upstream_loop_writes(events_model(events@)),
        r.1 == upstream_loop_cause(events_model(events@)),
{
    let ghost all = events_model(events@);
    let mut events = events;
    let mut out: Vec<Frame> = Vec::new();
    let mut cause: Option<Cause> = None;
    while events.len() > 0 && cause.is_none()
        invariant
            cause is None ==> upstream_loop_writes(all) == frames_model(out@)
                + upstream_loop_writes(events_model(events@)),
            cause is None ==> upstream_loop_cause(all) == upstream_loop_cause(
                events_model(events@),
            ),
            cause matches Some(cz) ==> frames_model(out@) == upstream_loop_writes(all)
                && upstream_loop_cause(all) == Some(cz),
        decreases events.len(),
    {
        let ghost ms = events_model(events@);
        let ghost out0 = out@;
        let ev = events.remove(0);
        proof {
            assert(ms[0] == ev@);
            assert(events_model(events@) =~= ms.skip(1));
        }
        let a = upstream_action(ev);
        match a {
            Action::ForwardData(f) => {
                out.push(f);
                proof {
                    assert(frames_model(out@) =~= frames_model(out0) + upstream_writes(ev@));
                    assert(frames_model(out0) + (upstream_writes(ev@) + upstream_loop_writes(
                        ms.skip(1),
                    )) =~= (frames_model(out0) + upstream_writes(ev@)) + upstream_loop_writes(
                        ms.skip(1),
                    ));
                }
            },
            Action::ForwardControl(f) => {
                out.push(f);
                proof {
                    assert(frames_model(out@) =~= frames_model(out0) + upstream_writes(ev@));
                    assert(frames_model(out0) + (upstream_writes(ev@) + upstream_loop_writes(
                        ms.skip(1),
                    )) =~= (frames_model(out0) + upstream_writes(ev@)) + upstream_loop_writes(
                        ms.skip(1),
                    ));
                }
            },
            Action::CloseAndStop(c, cz) => {
                out.push(Frame::Close(Some(c)));
                cause = Some(cz);
                proof {
                    assert(frames_model(out@) =~= frames_model(out0) + upstream_writes(ev@));
                }
            },
            Action::Ignore => {
                proof {
                    assert(frames_model(out0) + (Seq::<FrameModel>::empty()
                        + upstream_loop_writes(ms.skip(1))) =~= frames_model(out0)
                        + upstream_loop_writes(ms.skip(1)));
                }
            },
            Action::Stop(cz) => {
                cause = Some(cz);
                proof {
                    assert(frames_model(out0) + Seq::<FrameModel>::empty() =~= frames_model(
                        out0,
                    ));
                }
            },
        }
    }
    proof {
        if cause is None {
            assert(frames_model(out@) + upstream_loop_writes(events_model(events@))
                =~= frames_model(out@));
        }
    }
    (out, cause)
}

/// Run the downstream-to-upstream forwarding policy over a finished sequence
/// of read events from the client, as against a mock peer whose writes all
/// succeed: returns the frames delivered upstream and the cause the loop
/// ended with, if a terminating event was reached.
pub fn relay_downstream_events(events: Vec<ReadEvent>) -> (r: (Vec<Frame>, Option<Cause>))
    ensures
        frames_model(r.0@) == downstream_loop_writes(events_model(events@)),
        r.1 == downstream_loop_cause(events_model(events@)),
{
    let ghost all = events_model(events@);
    let mut events = events;
    let mut out: Vec<Frame> = Vec::new();
    let mut cause: Option<Cause> = None;
    while events.len() > 0 && cause.is_none()
        invariant
            cause is None ==> downstream_loop_writes(all) == frames_model(out@)
                + downstream_loop_writes(events_model(events@)),
            cause is None ==> downstream_loop_cause(all) == downstream_loop_cause(
                events_model(events@),
            ),
            cause matches Some(cz) ==> frames_model(out@) == downstream_loop_writes(all)
                && downstream_loop_cause(all) == Some(cz),
        decreases events.len(),
    {
        let ghost ms = events_model(events@);
        let ghost out0 = out@;
        let ev = events.remove(0);
        proof {
            assert(ms[0] == ev@);
            assert(events_model(events@) =~= ms.skip(1));
        }
        let a = downstream_action(ev);
        match a {
            Action::ForwardData(f) => {
                out.push(f);
                proof {
                    assert(frames_model(out@) =~= frames_model(out0) + downstream_writes(ev@));
                    assert(frames_model(out0) + (downstream_writes(ev@) + downstream_loop_writes(
                        ms.skip(1),
                    )) =~= (frames_model(out0) + downstream_writes(ev@)) + downstream_loop_writes(
                        ms.skip(1),
                    ));
                }
            },
            Action::ForwardControl(f) => {
                out.push(f);
                proof {
                    assert(frames_model(out@) =~= frames_model(out0) + downstream_writes(ev@));
                    assert(frames_model(out0) + (downstream_writes(ev@) + downstream_loop_writes(
                        ms.skip(1),
                    )) =~= (frames_model(out0) + downstream_writes(ev@)) + downstream_loop_writes(
                        ms.skip(1),
                    ));
                }
            },
            Action::CloseAndStop(c, cz) => {
                out.push(Frame::Close(Some(c)));
                cause = Some(cz);
                proof {
                    assert(frames_model(out@) =~= frames_model(out0) + downstream_writes(ev@));
                }
            },
            Action::Ignore => {
                proof {
                    assert(frames_model(out0) + (Seq::<FrameModel>::empty()
                        + downstream_loop_writes(ms.skip(1))) =~= frames_model(out0)
                        + downstream_loop_writes(ms.skip(1)));
                }
            },
            Action::Stop(cz) => {
                cause = Some(cz);
                proof {
                    assert(frames_model(out0) + Seq::<FrameModel>::empty() =~= frames_model(
                        out0,
                    ));
                }
            },
        }
    }
    proof {
        if cause is None {
            assert(frames_model(out@) + downstream_loop_writes(events_model(events@))
                =~= frames_model(out@));
        }
    }
    (out, cause)
}

/// Whether an event ends a forwarding loop. Both directions stop on the same
/// events: a close frame, a read error, the end of the stream.
pub open spec fn terminal_event(ev: EventModel) -> bool {
    match ev {
        EventModel::Frame(f) => f is Close,
        EventModel::ReadError => true,
        EventModel::Ended => true,
    }
}

/// Whether a frame carries payload data.
pub open spec fn is_data_frame(f: FrameModel) -> bool {
    f is Text || f is Binary
}

/// The data frames of a sequence of frames, in order.
pub open spec fn data_frames(s: Seq<FrameModel>) -> Seq<FrameModel> {
    s.filter(|f: FrameModel| is_data_frame(f))
}

/// The data frames a peer sent before its forwarding loop ended, in order.
pub open spec fn offered_data(events: Seq<EventModel>) -> Seq<FrameModel>
    decreases events.len(),
{
    if events.len() == 0 {
        Seq::<FrameModel>::empty()
    } else if terminal_event(events[0]) {
        Seq::<FrameModel>::empty()
    } else {
        (match events[0] {
            EventModel::Frame(f) => if is_data_frame(f) {
                seq![f]
            } else {
                Seq::<FrameModel>::empty()
            },
            _ => Seq::<FrameModel>::empty(),
        }) + offered_data(events.skip(1))
    }
}

proof fn lemma_data_frames_empty()
    ensures
        data_frames(Seq::<FrameModel>::empty()) == Seq::<FrameModel>::empty(),
{
    reveal(Seq::filter);
}

proof fn lemma_data_frames_singleton(f: FrameModel)
    ensures
        is_data_frame(f) ==> data_frames(seq![f]) == seq![f],
        !is_data_frame(f) ==> data_frames(seq![f]) == Seq::<FrameModel>::empty(),
{
    reveal_with_fuel(Seq::filter, 2);
    assert(seq![f].last() == f);
    assert(seq![f].drop_last() =~= Seq::<FrameModel>::empty());
    if is_data_frame(f) {
        assert(data_frames(seq![f]) =~= seq![f]);
    } else {
        assert(data_frames(seq![f]) =~= Seq::<FrameModel>::empty());
    }
}

/// Law: the data frames (text and binary) the downstream peer receives are
/// exactly the data frames the upstream peer sent before the loop ended,
/// byte-identical and in the same relative order.
pub proof fn lemma_upstream_data_preserved(events: Seq<EventModel>)
    ensures
        data_frames(upstream_loop_writes(events)) == offered_data(events),
    decreases events.len(),
{
    broadcast use Seq::filter_distributes_over_add;

    if events.len() == 0 {
        lemma_data_frames_empty();
    } else if upstream_stop(events[0]) is Some {
        match events[0] {
            EventModel::Frame(f) => {
                match f {
                    FrameModel::Close(cf) => {
                        lemma_data_frames_singleton(
                            FrameModel::Close(Some(downstream_close_of(cf))),
                        );
                    },
                    _ => {},
                }
            },
            EventModel::ReadError => {
                lemma_data_frames_singleton(
                    FrameModel::Close(Some((1000u16, Seq::<char>::empty()))),
                );
            },
            EventModel::Ended => {
                lemma_data_frames_empty();
            },
        }
    } else {
        lemma_upstream_data_preserved(events.skip(1));
        match events[0] {
            EventModel::Frame(f) => {
                lemma_data_frames_singleton(f);
                if !is_data_frame(f) {
                    match f {
                        FrameModel::Raw => {
                            lemma_data_frames_empty();
                        },
                        _ => {},
                    }
                }
            },
            _ => {},
        }
        assert(data_frames(upstream_loop_writes(events)) =~= offered_data(events));
    }
}

/// Law: the data frames (text and binary) the upstream peer receives are
/// exactly the data frames the downstream client sent before the loop ended,
/// byte-identical and in the same relative order.
pub proof fn lemma_downstream_data_preserved(events: Seq<EventModel>)
    ensures
        data_frames(downstream_loop_writes(events)) == offered_data(events),
    decreases events.len(),
{
    broadcast use Seq::filter_distributes_over_add;

    if events.len() == 0 {
        lemma_data_frames_empty();
    } else if downstream_stop(events[0]) is Some {
        lemma_data_frames_empty();
    } else {
        lemma_downstream_data_preserved(events.skip(1));
        match events[0] {
            EventModel::Frame(f) => {
                lemma_data_frames_singleton(f);
                if !is_data_frame(f) {
                    match f {
                        FrameModel::Raw => {
                            lemma_data_frames_empty();
                        },
                        _ => {},
                    }
                }
            },
            _ => {},
        }
        assert(data_frames(downstream_loop_writes(events)) =~= offered_data(events));
    }
}

} // verus!
