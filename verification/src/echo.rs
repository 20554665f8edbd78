//! The per-connection echo session as a state machine.
//!
//! One worker thread owns one connection for its whole life and alternates
//! blocking I/O with decisions. The decisions live here, verified:
//! [`echo_step`] maps the current session state and the event the I/O
//! produced to the next state and the next action. The embedding program
//! runs the loop — it performs each action on the stream (with a read
//! timeout of [`READ_TIMEOUT_SECS`] seconds set up front and a read buffer
//! of [`BUFFER_SIZE`] bytes) and feeds the outcome back in as the next
//! event — until the state is terminal, whereupon the action was `Close`
//! and the connection's handle is released.

use vstd::prelude::*;

verus! {

/// Size in bytes of the fixed read buffer a session is driven with.
pub const BUFFER_SIZE: usize = 1024;

/// The idle-read timeout, in seconds, set on the connection before the
/// first read. A read that exceeds it terminates the session.
pub const READ_TIMEOUT_SECS: u64 = 60;

/// The state of one echo session. `Closed`, `TimedOut` and `IoError` are
/// terminal; each is reached by a transition whose action closes the
/// connection.
#[derive(Clone, Copy, PartialEq, Eq, Structural, Debug)]
pub enum EchoState {
    /// Waiting for bytes from the peer.
    Reading,
    /// Echoing the bytes of the last read back, in full.
    Writing,
    /// The peer half-closed (a zero-length read): orderly end.
    Closed,
    /// No bytes arrived within the idle-read timeout.
    TimedOut,
    /// A read or write failed; the failure is local to this session.
    IoError,
}

/// What the I/O reported to the session.
#[derive(Debug)]
pub enum EchoEvent {
    /// A read returned these bytes: more than zero of them, at most
    /// [`BUFFER_SIZE`].
    BytesRead(Vec<u8>),
    /// A read returned zero bytes: the peer half-closed.
    Eof,
    /// A read exceeded the idle timeout.
    ReadTimedOut,
    /// A read failed.
    ReadError,
    /// The pending bytes were written back, all of them.
    WroteAll,
    /// A write failed before all pending bytes were out.
    WriteError,
}

/// What the session asks the I/O to do next.
#[derive(Debug)]
pub enum EchoAction {
    /// Read up to [`BUFFER_SIZE`] bytes.
    Read,
    /// Write all of these bytes back to the peer, retrying partial writes
    /// until complete or failed.
    Write(Vec<u8>),
    /// Release the connection: close the stream and so the OS handle.
    Close,
}

/// An [`EchoEvent`] as specifications see it.
pub enum EventModel {
    Bytes(Seq<u8>),
    Eof,
    ReadTimedOut,
    ReadError,
    WroteAll,
    WriteError,
}

/// An [`EchoAction`] as specifications see it.
pub enum ActionModel {
    Read,
    Write(Seq<u8>),
    Close,
}

impl View for EchoEvent {
    type V = EventModel;

    open spec fn view(&self) -> EventModel {
        match self {
            EchoEvent::BytesRead(b) => EventModel::Bytes(b@),
            EchoEvent::Eof => EventModel::Eof,
            EchoEvent::ReadTimedOut => EventModel::ReadTimedOut,
            EchoEvent::ReadError => EventModel::ReadError,
            EchoEvent::WroteAll => EventModel::WroteAll,
            EchoEvent::WriteError => EventModel::WriteError,
        }
    }
}

impl View for EchoAction {
    type V = ActionModel;

    open spec fn view(&self) -> ActionModel {
        match self {
            EchoAction::Read => ActionModel::Read,
            EchoAction::Write(b) => ActionModel::Write(b@),
            EchoAction::Close => ActionModel::Close,
        }
    }
}

/// The transition table of the session. A read of bytes is answered by
/// writing exactly those bytes back; a completed write returns to reading;
/// a zero-length read ends the session in order; a timeout or any I/O
/// failure ends it with the connection closed all the same. The table is
/// total: an event that the current state cannot produce (a write report
/// while reading, anything after a terminal state) is treated as a failure
/// of the session's I/O and also ends it closed.
pub open spec fn echo_step_spec(s: EchoState, e: EventModel) -> (EchoState, ActionModel) {
    match (s, e) {
        (EchoState::Reading, EventModel::Bytes(b)) => (EchoState::Writing, ActionModel::Write(b)),
        (EchoState::Reading, EventModel::Eof) => (EchoState::Closed, ActionModel::Close),
        (EchoState::Reading, EventModel::ReadTimedOut) => (
            EchoState::TimedOut,
            ActionModel::Close,
        ),
        (EchoState::Reading, EventModel::ReadError) => (EchoState::IoError, ActionModel::Close),
        (EchoState::Writing, EventModel::WroteAll) => (EchoState::Reading, ActionModel::Read),
        (EchoState::Writing, EventModel::WriteError) => (EchoState::IoError, ActionModel::Close),
        _ => (EchoState::IoError, ActionModel::Close),
    }
}

/// Whether the session is over. Once true, no event moves it anywhere but
/// here, and the connection has been ordered closed.
pub open spec fn echo_done(s: EchoState) -> bool {
    match s {
        EchoState::Reading => false,
        EchoState::Writing => false,
        EchoState::Closed => true,
        EchoState::TimedOut => true,
        EchoState::IoError => true,
    }
}

/// The state a fresh session starts in: reading, after the embedding
/// program has set the idle-read timeout on the connection.
pub fn echo_start() -> (s: EchoState)
    ensures
        s == EchoState::Reading,
{
    EchoState::Reading
}

/// One decision of the echo session: exactly [`echo_step_spec`] on the
/// models of its arguments.
pub fn echo_step(s: EchoState, e: EchoEvent) -> (r: (EchoState, EchoAction))
    ensures
        r.0 == echo_step_spec(s, e@).0,
        r.1@ == echo_step_spec(s, e@).1,
{
    match (s, e) {
        (EchoState::Reading, EchoEvent::BytesRead(b)) => (
            EchoState::Writing,
            EchoAction::Write(b),
        ),
        (EchoState::Reading, EchoEvent::Eof) => (EchoState::Closed, EchoAction::Close),
        (EchoState::Reading, EchoEvent::ReadTimedOut) => (EchoState::TimedOut, EchoAction::Close),
        (EchoState::Reading, EchoEvent::ReadError) => (EchoState::IoError, EchoAction::Close),
        (EchoState::Writing, EchoEvent::WroteAll) => (EchoState::Reading, EchoAction::Read),
        (EchoState::Writing, EchoEvent::WriteError) => (EchoState::IoError, EchoAction::Close),
        _ => (EchoState::IoError, EchoAction::Close),
    }
}

/// Whether the session is over, observably.
pub fn echo_is_done(s: EchoState) -> (r: bool)
    ensures
        r == echo_done(s),
{
    match s {
        EchoState::Reading => false,
        EchoState::Writing => false,
        EchoState::Closed => true,
        EchoState::TimedOut => true,
        EchoState::IoError => true,
    }
}

/// The state a session reaches from `s` after the events `evs`, in order.
pub open spec fn run_state(s: EchoState, evs: Seq<EventModel>) -> EchoState
    decreases evs.len(),
{
    if evs.len() == 0 {
        s
    } else {
        run_state(echo_step_spec(s, evs[0]).0, evs.drop_first())
    }
}

/// The bytes one transition sends back to the peer: the payload of a
/// `Write` action, nothing otherwise.
pub open spec fn step_bytes(s: EchoState, e: EventModel) -> Seq<u8> {
    match echo_step_spec(s, e).1 {
        ActionModel::Write(b) => b,
        _ => Seq::empty(),
    }
}

/// All the bytes a session sends back to the peer over the events `evs`.
pub open spec fn run_output(s: EchoState, evs: Seq<EventModel>) -> Seq<u8>
    decreases evs.len(),
{
    if evs.len() == 0 {
        Seq::empty()
    } else {
        step_bytes(s, evs[0]) + run_output(echo_step_spec(s, evs[0]).0, evs.drop_first())
    }
}

/// The events of an undisturbed session: the peer's bytes arrive as the
/// reads `chunks`, each echo write completes, and the peer then
/// half-closes.
pub open spec fn session_events(chunks: Seq<Seq<u8>>) -> Seq<EventModel>
    decreases chunks.len(),
{
    if chunks.len() == 0 {
        seq![EventModel::Eof]
    } else {
        seq![EventModel::Bytes(chunks[0]), EventModel::WroteAll] + session_events(
            chunks.drop_first(),
        )
    }
}

/// The chunks a peer sent, in order, as one byte sequence.
pub open spec fn concat_bytes(chunks: Seq<Seq<u8>>) -> Seq<u8>
    decreases chunks.len(),
{
    if chunks.len() == 0 {
        Seq::empty()
    } else {
        chunks[0] + concat_bytes(chunks.drop_first())
    }
}

/// The events of `evs`, as specifications see them.
pub open spec fn views_of(evs: Seq<EchoEvent>) -> Seq<EventModel> {
    evs.map_values(|e: EchoEvent| e@)
}

/// The whole session loop of a worker, run over a known script of events
/// instead of live I/O: every decision is an [`echo_step`], every `Write`
/// action's bytes are collected. Returns the final state and everything the
/// session wrote back — exactly what the trace model says.
pub fn run_echo_session(events: Vec<EchoEvent>) -> (r: (EchoState, Vec<u8>))
    ensures
        r.0 == run_state(EchoState::Reading, views_of(events@)),
        r.1@ == run_output(EchoState::Reading, views_of(events@)),
{
    let ghost all = views_of(events@);
    let mut evs = events;
    let mut state = echo_start();
    let mut out: Vec<u8> = Vec::new();
    while evs.len() > 0
        invariant
            run_state(EchoState::Reading, all) == run_state(state, views_of(evs@)),
            run_output(EchoState::Reading, all) == out@ + run_output(state, views_of(evs@)),
        decreases evs.len(),
    {
        let ghost before = views_of(evs@);
        let e = evs.remove(0);
        proof {
            assert(before[0] == e@);
            assert(views_of(evs@) =~= before.drop_first());
        }
        let (next, action) = echo_step(state, e);
        match action {
            EchoAction::Write(bytes) => {
                let mut bytes = bytes;
                out.append(&mut bytes);
            },
            EchoAction::Read => {
                proof {
                    assert(step_bytes(state, before[0]) =~= Seq::<u8>::empty());
                    assert(out@ + Seq::<u8>::empty() =~= out@);
                }
            },
            EchoAction::Close => {
                proof {
                    assert(step_bytes(state, before[0]) =~= Seq::<u8>::empty());
                    assert(out@ + Seq::<u8>::empty() =~= out@);
                }
            },
        }
        state = next;
    }
    proof {
        assert(views_of(evs@) =~= Seq::<EventModel>::empty());
        assert(run_output(state, views_of(evs@)) =~= Seq::<u8>::empty());
        assert(out@ + Seq::<u8>::empty() =~= out@);
    }
    (state, out)
}

/// A connection that sends any byte sequence — arriving as any reads
/// whatever, including none — and then half-closes receives back exactly
/// those bytes, in order, and the session ends in the orderly `Closed`
/// state.
pub proof fn lemma_echo_session_exact(chunks: Seq<Seq<u8>>)
    ensures
        run_state(EchoState::Reading, session_events(chunks)) == EchoState::Closed,
        run_output(EchoState::Reading, session_events(chunks)) == concat_bytes(chunks),
    decreases chunks.len(),
{
    if chunks.len() == 0 {
        let evs = session_events(chunks);
        assert(evs =~= seq![EventModel::Eof]);
        assert(evs.drop_first() =~= Seq::<EventModel>::empty());
        assert(run_state(EchoState::Closed, evs.drop_first()) == EchoState::Closed);
        assert(run_output(EchoState::Closed, evs.drop_first()) =~= Seq::<u8>::empty());
        assert(run_output(EchoState::Reading, evs) =~= concat_bytes(chunks));
    } else {
        let c0 = chunks[0];
        let rest = session_events(chunks.drop_first());
        let evs = session_events(chunks);
        let evs1 = seq![EventModel::WroteAll] + rest;
        lemma_echo_session_exact(chunks.drop_first());
        assert(evs[0] == EventModel::Bytes(c0));
        assert(evs.drop_first() =~= evs1);
        assert(evs1[0] == EventModel::WroteAll);
        assert(evs1.drop_first() =~= rest);
        // the state after the two leading events: Reading -> Writing -> Reading
        assert(run_state(EchoState::Reading, evs) == run_state(EchoState::Writing, evs1));
        assert(run_state(EchoState::Writing, evs1) == run_state(EchoState::Reading, rest));
        // the output over the two leading events: the first chunk, then nothing
        assert(run_output(EchoState::Reading, evs) == step_bytes(
            EchoState::Reading,
            EventModel::Bytes(c0),
        ) + run_output(EchoState::Writing, evs1));
        assert(run_output(EchoState::Writing, evs1) == step_bytes(
            EchoState::Writing,
            EventModel::WroteAll,
        ) + run_output(EchoState::Reading, rest));
        assert(step_bytes(EchoState::Reading, EventModel::Bytes(c0)) == c0);
        assert(step_bytes(EchoState::Writing, EventModel::WroteAll) =~= Seq::<u8>::empty());
        assert(run_output(EchoState::Reading, evs) =~= c0 + run_output(EchoState::Reading, rest));
        assert(run_output(EchoState::Reading, evs) =~= concat_bytes(chunks));
    }
}

/// A session that times out waiting to read is terminated then and there,
/// and its transition closes the connection — the handle is released, as on
/// every other exit path. (A session shares nothing with its siblings: the
/// transition is a function of this session's state alone.)
pub proof fn lemma_timeout_terminates()
    ensures
        echo_step_spec(EchoState::Reading, EventModel::ReadTimedOut) == (
            EchoState::TimedOut,
            ActionModel::Close,
        ),
        echo_done(EchoState::TimedOut),
{
}

/// On every exit path the connection is closed: a transition ends the
/// session exactly when its action is `Close`.
pub proof fn lemma_terminal_closes(s: EchoState, e: EventModel)
    ensures
        echo_done(echo_step_spec(s, e).0) <==> echo_step_spec(s, e).1 is Close,
{
}

} // verus!
