//! The session loop: one TCP session at a time, rebuilt after any failure.
use vstd::prelude::*;
use vstd::utf8::valid_utf8;

use crate::policy::{
    Endpoint, Role, CONNECT_ERROR_BACKOFF_MS, ESTABLISH_TIMEOUT_MS, IDLE_TIMEOUT_MS,
    INITIATOR_SCRATCH_LEN, REMOTE_ADDR, RESPONDER_SCRATCH_LEN, ROUND_TRIP_PAUSE_MS, TCP_PORT,
};

verus! {

/// Where the current session stands.
#[derive(Clone, Copy, Debug, PartialEq, Eq, Structural)]
pub enum Phase {
    /// Nothing has been attempted yet.
    Idle,
    /// A connect or accept on a fresh socket is in flight.
    Establishing,
    /// The initiator waits before building a new socket.
    Backoff,
    /// A write on the established session is in flight.
    Writing,
    /// A read on the established session is in flight.
    Reading,
    /// The initiator pauses between two round trips.
    Pausing,
}

/// The outcome of the last action.
#[derive(Clone, Copy, Debug, PartialEq, Eq, Structural)]
pub enum SessionEvent {
    /// Nothing happened yet (the first call).
    Begin,
    /// The connect or accept did not finish within its bound.
    EstablishTimedOut,
    /// The connect or accept failed.
    EstablishFailed,
    /// The connect or accept succeeded.
    Established,
    /// The whole payload was written.
    WriteDone,
    /// The write failed or exceeded its bound.
    WriteFailed,
    /// The read put this many bytes at the start of the scratch buffer; none
    /// at all means the peer closed.
    ReadDone(usize),
    /// The read failed or exceeded its bound.
    ReadFailed,
    /// A requested sleep ended.
    TimerFired,
}

/// What the caller is to do next.
#[derive(Clone, Copy, Debug, PartialEq, Eq, Structural)]
pub enum SessionAction {
    /// Drop the old socket, build a fresh one on the fixed buffers and
    /// connect it to the endpoint within the bound.
    Connect { remote: Endpoint, timeout_ms: u64 },
    /// Drop the old socket, build a fresh one on the fixed buffers and accept
    /// one connection on the port within the bound.
    Accept { port: u16, timeout_ms: u64 },
    /// Write all of the payload (`hello_payload`), bounded by the idle timeout.
    WritePayload { timeout_ms: u64 },
    /// Write back the first `len` bytes of the scratch buffer, bounded by the
    /// idle timeout.
    Echo { len: usize, timeout_ms: u64 },
    /// Read at most `max_len` bytes into the scratch buffer, bounded by the
    /// idle timeout.
    Read { max_len: usize, timeout_ms: u64 },
    /// Sleep for the given number of milliseconds.
    Sleep(u64),
}

/// One decision: the action and an optional new level of the indicator.
#[derive(Clone, Copy, Debug, PartialEq, Eq, Structural)]
pub struct SessionStep {
    pub action: SessionAction,
    pub indicator: Option<bool>,
}

/// The initiator's payload: the ASCII text `Hello`.
pub open spec fn hello() -> Seq<u8> {
    seq![0x48u8, 0x65u8, 0x6cu8, 0x6cu8, 0x6fu8]
}

/// Size of the scratch buffer a role reads into.
pub open spec fn scratch_len(role: Role) -> usize {
    match role {
        Role::Initiator => INITIATOR_SCRATCH_LEN,
        Role::Responder => RESPONDER_SCRATCH_LEN,
    }
}

/// The bytes an action puts on the wire, given the scratch buffer's contents.
pub open spec fn written(action: SessionAction, scratch: Seq<u8>) -> Seq<u8> {
    match action {
        SessionAction::WritePayload { .. } => hello(),
        SessionAction::Echo { len, .. } => scratch.subrange(0, len as int),
        _ => Seq::empty(),
    }
}

/// The session loop of one node.
///
/// No received data lives in the loop itself: it stays in the caller's
/// scratch buffer until the next read overwrites it, so a discarded session
/// leaves nothing behind. `indicator` is the level the loop last wrote to the
/// indicator (or found there when it was made).
#[derive(Clone, Copy, Debug, PartialEq, Eq, Structural)]
pub struct SessionLoop {
    pub role: Role,
    pub remote: Endpoint,
    pub port: u16,
    pub phase: Phase,
    pub indicator: bool,
}

/// The connect or accept that opens a fresh session.
pub open spec fn establish(s: SessionLoop) -> SessionAction {
    match s.role {
        Role::Initiator => SessionAction::Connect { remote: s.remote, timeout_ms: ESTABLISH_TIMEOUT_MS },
        Role::Responder => SessionAction::Accept { port: s.port, timeout_ms: ESTABLISH_TIMEOUT_MS },
    }
}

/// Discards the session and opens a fresh one at once.
pub open spec fn restart(s: SessionLoop) -> (SessionLoop, SessionStep) {
    (SessionLoop { phase: Phase::Establishing, ..s }, SessionStep { action: establish(s), indicator: None })
}

/// After a failed or timed-out accept the responder toggles the indicator
/// and accepts again.
pub open spec fn responder_retry(s: SessionLoop) -> (SessionLoop, SessionStep) {
    (
        SessionLoop { phase: Phase::Establishing, indicator: !s.indicator, ..s },
        SessionStep { action: establish(s), indicator: Some(!s.indicator) },
    )
}

/// Asks for a read into the role's scratch buffer.
pub open spec fn read_step(s: SessionLoop) -> (SessionLoop, SessionStep) {
    (
        SessionLoop { phase: Phase::Reading, ..s },
        SessionStep {
            action: SessionAction::Read { max_len: scratch_len(s.role), timeout_ms: IDLE_TIMEOUT_MS },
            indicator: None,
        },
    )
}

/// Asks for a write.
pub open spec fn write_step(s: SessionLoop, action: SessionAction) -> (SessionLoop, SessionStep) {
    (SessionLoop { phase: Phase::Writing, ..s }, SessionStep { action, indicator: None })
}

/// The transition of the session loop on one event, `scratch` being the
/// contents of the scratch buffer the caller reads into.
///
/// Every failure (timeout, transport error, end of stream, bytes that are not
/// text, a length the buffer cannot hold, an event the phase does not expect)
/// discards the session and the loop starts over with a fresh socket. Only
/// the initiator waits before that, and only after a connect that failed
/// outright. Received bytes that are not UTF-8 close the session as a
/// protocol violation, where a decode that assumed text would have aborted
/// the node.
pub open spec fn session_next(s: SessionLoop, ev: SessionEvent, scratch: Seq<u8>) -> (SessionLoop, SessionStep) {
    match (s.phase, ev) {
        (Phase::Establishing, SessionEvent::EstablishTimedOut) => match s.role {
            Role::Initiator => restart(s),
            Role::Responder => responder_retry(s),
        },
        (Phase::Establishing, SessionEvent::EstablishFailed) => match s.role {
            Role::Initiator => (
                SessionLoop { phase: Phase::Backoff, ..s },
                SessionStep { action: SessionAction::Sleep(CONNECT_ERROR_BACKOFF_MS), indicator: None },
            ),
            Role::Responder => responder_retry(s),
        },
        (Phase::Establishing, SessionEvent::Established) => match s.role {
            Role::Initiator => write_step(s, SessionAction::WritePayload { timeout_ms: IDLE_TIMEOUT_MS }),
            Role::Responder => {
                let (n, st) = read_step(s);
                (SessionLoop { indicator: true, ..n }, SessionStep { indicator: Some(true), ..st })
            },
        },
        (Phase::Writing, SessionEvent::WriteDone) => read_step(s),
        (Phase::Reading, SessionEvent::ReadDone(len)) => {
            if len == 0 || len > scratch_len(s.role) || len > scratch.len() || !valid_utf8(
                scratch.subrange(0, len as int),
            ) {
                restart(s)
            } else {
                match s.role {
                    Role::Initiator => (
                        SessionLoop { phase: Phase::Pausing, ..s },
                        SessionStep { action: SessionAction::Sleep(ROUND_TRIP_PAUSE_MS), indicator: None },
                    ),
                    Role::Responder => write_step(s, SessionAction::Echo { len, timeout_ms: IDLE_TIMEOUT_MS }),
                }
            }
        },
        (Phase::Pausing, SessionEvent::TimerFired) => write_step(
            s,
            SessionAction::WritePayload { timeout_ms: IDLE_TIMEOUT_MS },
        ),
        _ => restart(s),
    }
}

/// Relies on `core::str::from_utf8`: it returns `Ok` exactly when the bytes
/// are well-formed UTF-8.
#[verifier::external_body]
fn is_text(bytes: &[u8]) -> (r: bool)
    ensures
        r == valid_utf8(bytes@),
{
    core::str::from_utf8(bytes).is_ok()
}

/// The initiator's payload, made once by the caller and written on each
/// `WritePayload`.
pub fn hello_payload() -> (r: [u8; 5])
    ensures
        r@ == hello(),
{
    let r: [u8; 5] = [0x48u8, 0x65u8, 0x6cu8, 0x6cu8, 0x6fu8];
    assert(r@ =~= hello());
    r
}

/// A connect or accept that runs out its bound is abandoned and the very next
/// decision opens a fresh session, with no pause: the loop keeps nothing of
/// the abandoned attempt but its role, endpoints and indicator level.
pub proof fn lemma_timeout_starts_fresh(s: SessionLoop, scratch: Seq<u8>)
    requires
        s.phase == Phase::Establishing,
    ensures
        ({
            let (n, st) = session_next(s, SessionEvent::EstablishTimedOut, scratch);
            &&& n == (SessionLoop { phase: Phase::Establishing, indicator: n.indicator, ..s })
            &&& st.action == establish(s)
            &&& establish(s) matches SessionAction::Connect { timeout_ms, .. } ==> timeout_ms == ESTABLISH_TIMEOUT_MS
            &&& establish(s) matches SessionAction::Accept { timeout_ms, .. } ==> timeout_ms == ESTABLISH_TIMEOUT_MS
        }),
{
}

/// Every read and write the loop asks for is bounded by the idle timeout and
/// happens on an established session; every connect and accept is bounded by
/// the establish timeout.
pub proof fn lemma_operations_bounded(s: SessionLoop, ev: SessionEvent, scratch: Seq<u8>)
    ensures
        ({
            let (n, st) = session_next(s, ev, scratch);
            &&& st.action matches SessionAction::Read { max_len, timeout_ms } ==> {
                &&& timeout_ms == IDLE_TIMEOUT_MS
                &&& max_len == scratch_len(s.role)
                &&& n.phase == Phase::Reading
            }
            &&& st.action matches SessionAction::WritePayload { timeout_ms } ==> {
                &&& timeout_ms == IDLE_TIMEOUT_MS
                &&& n.phase == Phase::Writing
            }
            &&& st.action matches SessionAction::Echo { timeout_ms, .. } ==> {
                &&& timeout_ms == IDLE_TIMEOUT_MS
                &&& n.phase == Phase::Writing
            }
            &&& st.action matches SessionAction::Connect { timeout_ms, .. } ==> timeout_ms == ESTABLISH_TIMEOUT_MS
            &&& st.action matches SessionAction::Accept { timeout_ms, .. } ==> timeout_ms == ESTABLISH_TIMEOUT_MS
        }),
{
}

/// A read of zero bytes ends the session quietly: the loop opens a fresh one.
pub proof fn lemma_eof_ends_session(s: SessionLoop, scratch: Seq<u8>)
    requires
        s.phase == Phase::Reading,
    ensures
        session_next(s, SessionEvent::ReadDone(0), scratch) == restart(s),
        session_next(s, SessionEvent::ReadDone(0), scratch).0.phase == Phase::Establishing,
{
}

/// The responder writes back exactly the text it read: after a read that
/// left `data` at the start of the scratch buffer, the next write puts `data`
/// on the wire.
pub proof fn lemma_echo_round_trip(s: SessionLoop, scratch: Seq<u8>, data: Seq<u8>)
    requires
        s.role == Role::Responder,
        s.phase == Phase::Reading,
        0 < data.len() <= RESPONDER_SCRATCH_LEN,
        data.len() <= scratch.len(),
        scratch.subrange(0, data.len() as int) == data,
        valid_utf8(data),
    ensures
        ({
            let (n, st) = session_next(s, SessionEvent::ReadDone(data.len() as usize), scratch);
            &&& written(st.action, scratch) == data
            &&& st.action == (SessionAction::Echo { len: data.len() as usize, timeout_ms: IDLE_TIMEOUT_MS })
            &&& n.phase == Phase::Writing
        }),
{
}

/// The initiator's writes always put `Hello` on the wire.
pub proof fn lemma_initiator_sends_hello(s: SessionLoop, ev: SessionEvent, scratch: Seq<u8>)
    requires
        s.role == Role::Initiator,
    ensures
        session_next(s, ev, scratch).1.action matches SessionAction::WritePayload { .. } ==> written(
            session_next(s, ev, scratch).1.action,
            scratch,
        ) == hello(),
        !(session_next(s, ev, scratch).1.action is Echo),
{
}

/// Each failed or timed-out accept of the responder inverts the level last
/// written to the indicator.
pub proof fn lemma_accept_failure_toggles(s: SessionLoop, ev: SessionEvent, scratch: Seq<u8>)
    requires
        s.role == Role::Responder,
        s.phase == Phase::Establishing,
        ev == SessionEvent::EstablishTimedOut || ev == SessionEvent::EstablishFailed,
    ensures
        session_next(s, ev, scratch).1.indicator == Some(!s.indicator),
        session_next(s, ev, scratch).0.indicator == !s.indicator,
{
}

/// The loop's `indicator` field is always the level last written.
pub proof fn lemma_indicator_tracked(s: SessionLoop, ev: SessionEvent, scratch: Seq<u8>)
    ensures
        session_next(s, ev, scratch).1.indicator matches Some(level) ==> session_next(
            s,
            ev,
            scratch,
        ).0.indicator == level,
        session_next(s, ev, scratch).1.indicator is None ==> session_next(s, ev, scratch).0.indicator
            == s.indicator,
{
}

impl SessionLoop {
    /// A loop that has attempted nothing yet, with the indicator at
    /// `indicator`. The initiator connects to the fixed remote endpoint; the
    /// responder accepts on the fixed port.
    pub fn new(role: Role, indicator: bool) -> (r: SessionLoop)
        ensures
            r == (SessionLoop {
                role,
                remote: Endpoint { addr: REMOTE_ADDR, port: TCP_PORT },
                port: TCP_PORT,
                phase: Phase::Idle,
                indicator,
            }),
    {
        SessionLoop {
            role,
            remote: Endpoint { addr: REMOTE_ADDR, port: TCP_PORT },
            port: TCP_PORT,
            phase: Phase::Idle,
            indicator,
        }
    }

    fn establish_action(&self) -> (r: SessionAction)
        ensures
            r == establish(*self),
    {
        match self.role {
            Role::Initiator => SessionAction::Connect { remote: self.remote, timeout_ms: ESTABLISH_TIMEOUT_MS },
            Role::Responder => SessionAction::Accept { port: self.port, timeout_ms: ESTABLISH_TIMEOUT_MS },
        }
    }

    fn restart(&mut self) -> (r: SessionStep)
        ensures
            (*final(self), r) == restart(*old(self)),
    {
        self.phase = Phase::Establishing;
        SessionStep { action: self.establish_action(), indicator: None }
    }

    fn responder_retry(&mut self) -> (r: SessionStep)
        ensures
            (*final(self), r) == responder_retry(*old(self)),
    {
        let level = !self.indicator;
        let action = self.establish_action();
        self.phase = Phase::Establishing;
        self.indicator = level;
        SessionStep { action, indicator: Some(level) }
    }

    fn read_step(&mut self) -> (r: SessionStep)
        ensures
            (*final(self), r) == read_step(*old(self)),
    {
        self.phase = Phase::Reading;
        let max_len = match self.role {
            Role::Initiator => INITIATOR_SCRATCH_LEN,
            Role::Responder => RESPONDER_SCRATCH_LEN,
        };
        SessionStep { action: SessionAction::Read { max_len, timeout_ms: IDLE_TIMEOUT_MS }, indicator: None }
    }

    fn write_step(&mut self, action: SessionAction) -> (r: SessionStep)
        ensures
            (*final(self), r) == write_step(*old(self), action),
    {
        self.phase = Phase::Writing;
        SessionStep { action, indicator: None }
    }

    /// Feeds the outcome of the last action in and returns the next decision.
    /// `scratch` is the buffer the reads go into.
    pub fn step(&mut self, ev: SessionEvent, scratch: &[u8]) -> (r: SessionStep)
        ensures
            (*final(self), r) == session_next(*old(self), ev, scratch@),
    {
        match (self.phase, ev) {
            (Phase::Establishing, SessionEvent::EstablishTimedOut) => match self.role {
                Role::Initiator => self.restart(),
                Role::Responder => self.responder_retry(),
            },
            (Phase::Establishing, SessionEvent::EstablishFailed) => match self.role {
                Role::Initiator => {
                    self.phase = Phase::Backoff;
                    SessionStep { action: SessionAction::Sleep(CONNECT_ERROR_BACKOFF_MS), indicator: None }
                },
                Role::Responder => self.responder_retry(),
            },
            (Phase::Establishing, SessionEvent::Established) => match self.role {
                Role::Initiator => self.write_step(SessionAction::WritePayload { timeout_ms: IDLE_TIMEOUT_MS }),
                Role::Responder => {
                    let st = self.read_step();
                    self.indicator = true;
                    SessionStep { action: st.action, indicator: Some(true) }
                },
            },
            (Phase::Writing, SessionEvent::WriteDone) => self.read_step(),
            (Phase::Reading, SessionEvent::ReadDone(len)) => {
                let limit = match self.role {
                    Role::Initiator => INITIATOR_SCRATCH_LEN,
                    Role::Responder => RESPONDER_SCRATCH_LEN,
                };
                if len == 0 || len > limit || len > scratch.len() || !is_text(
                    vstd::slice::slice_subrange(scratch, 0, len),
                ) {
                    self.restart()
                } else {
                    match self.role {
                        Role::Initiator => {
                            self.phase = Phase::Pausing;
                            SessionStep { action: SessionAction::Sleep(ROUND_TRIP_PAUSE_MS), indicator: None }
                        },
                        Role::Responder => self.write_step(SessionAction::Echo { len, timeout_ms: IDLE_TIMEOUT_MS }),
                    }
                }
            },
            (Phase::Pausing, SessionEvent::TimerFired) => self.write_step(
                SessionAction::WritePayload { timeout_ms: IDLE_TIMEOUT_MS },
            ),
            _ => self.restart(),
        }
    }
}

} // verus!
