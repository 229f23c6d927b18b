//! The rules of a proxy session: which ports it tries, what it tells its
//! client, and when it ends.

use vstd::prelude::*;
use vstd::string::*;
use vstd::utf8::*;
use crate::buffers::TCStr;
use crate::error::Error;
use crate::level::{level_of_code, LogLevel};

verus! {

/// The control port of a server that was given none.
pub const DEFAULT_CONTROL_PORT: u16 = 5555;

/// The first port that is tried for a data channel.
pub const FIRST_DATA_PORT: u16 = 1025;

/// The port at which the search for a data channel gives up; it is not tried.
pub const DATA_PORT_LIMIT: u16 = 65535;

/// The port to try after `previous` could not be bound, or first of all
/// where nothing was tried yet.
pub open spec fn next_port_spec(previous: Option<u16>) -> Option<u16> {
    let candidate: int = match previous {
        Some(p) if p >= FIRST_DATA_PORT => p + 1,
        _ => FIRST_DATA_PORT as int,
    };
    if candidate < DATA_PORT_LIMIT {
        Some(candidate as u16)
    } else {
        None
    }
}

/// The port to try after `previous` could not be bound, or first of all
/// where nothing was tried yet; `None` when every port has been tried.
pub fn next_port(previous: Option<u16>) -> (next: Option<u16>)
    ensures
        next == next_port_spec(previous),
        next matches Some(p) ==> FIRST_DATA_PORT <= p < DATA_PORT_LIMIT,
{
    let candidate: u16 = match previous {
        Some(p) if p >= FIRST_DATA_PORT && p < DATA_PORT_LIMIT => p + 1,
        Some(p) if p >= FIRST_DATA_PORT => DATA_PORT_LIMIT,
        _ => FIRST_DATA_PORT,
    };
    if candidate < DATA_PORT_LIMIT {
        Some(candidate)
    } else {
        None
    }
}

/// The two bytes that announce a data port to the client: low byte first.
pub fn encode_port(port: u16) -> (bytes: [u8; 2])
    ensures
        bytes@.len() == 2,
        bytes@[0] == port % 256,
        bytes@[1] == port / 256,
        bytes@[0] + 256 * bytes@[1] == port,
{
    [(port % 256) as u8, (port / 256) as u8]
}

/// What `str::parse::<u8>` makes of a text.
pub uninterp spec fn parsed_u8(text: Seq<char>) -> Option<u8>;

/// `str::parse::<u8>`, with the error dropped: the number that the text
/// spells, and nothing where it spells none that fits in a `u8`. What comes
/// back depends on the text alone.
#[verifier::external_body]
fn parse_u8(text: &str) -> (n: Option<u8>)
    ensures
        n == parsed_u8(text@),
{
    text.parse::<u8>().ok()
}

/// The log level that a session takes from what its setting was read as:
/// the level of the number, and the lowest level where it was not a number.
pub fn level_of_parsed(parsed: Option<u8>) -> (level: LogLevel)
    ensures
        level == level_of_code(
            match parsed {
                Some(n) => n as int,
                None => 1,
            },
        ),
{
    match parsed {
        Some(n) => LogLevel::from(n as i32),
        None => LogLevel::from(1i32),
    }
}

/// The log level of a session, from the text of its setting: the lowest
/// level where there is no setting.
pub fn session_log_level(setting: Option<&str>) -> (level: LogLevel)
    ensures
        level == match setting {
            Some(text) => level_of_code(
                match parsed_u8(text@) {
                    Some(n) => n as int,
                    None => 1,
                },
            ),
            None => LogLevel::Minimum,
        },
{
    match setting {
        Some(text) => level_of_parsed(parse_u8(text)),
        None => LogLevel::Minimum,
    }
}

/// Whether a session goes on after a read that gave `read` bytes, `None`
/// standing for a read that failed: it ends at the end of the stream and on
/// the first failure.
pub fn session_continues(read: Option<usize>) -> (b: bool)
    ensures
        b == (read matches Some(n) && n > 0),
{
    match read {
        Some(n) => n > 0,
        None => false,
    }
}

/// `frame` is what a session writes back for a command that ended in `outcome`.
pub open spec fn is_response_to(outcome: Result<TCStr, Error>, frame: Seq<u8>) -> bool {
    match outcome {
        Ok(buf) => frame == buf@,
        Err(e) => match e.message_spec() {
            Some(m) => frame == encode_utf8(m),
            None => exists|cause: Seq<char>| frame == encode_utf8(e.prefix() + cause + e.suffix()),
        },
    }
}

/// What a session writes back for one command: the connector's reply as it
/// came where the command went through, and otherwise the text of the
/// refusal, with nothing put around it.
pub fn response_frame(outcome: &Result<TCStr, Error>) -> (frame: Vec<u8>)
    ensures
        is_response_to(*outcome, frame@),
{
    match outcome {
        Ok(buf) => vstd::slice::slice_to_vec(buf.to_bytes()),
        Err(e) => match e.message() {
            Some(m) => m.as_str().as_bytes_vec(),
            None => {
                let text = e.to_text();
                text.as_str().as_bytes_vec()
            },
        },
    }
}

/// Where a session stands. Every phase but the last holds the session's data
/// port, which is also the session's identifier.
#[derive(Debug, Clone, Copy, PartialEq, Eq, Structural)]
pub enum Phase {
    /// Trying to bind the data port it holds.
    Binding(u16),
    /// The data port is bound and is being announced on the control channel.
    Announcing(u16),
    /// Waiting for the client to connect to the data port.
    AwaitingData(u16),
    /// Both channels stand; the session's own connector is being started.
    Starting(u16),
    /// Waiting for the next command frame on the control channel.
    Reading(u16),
    /// A command is with the connector.
    Submitting(u16),
    /// The response to the last command is being written.
    Replying(u16),
    /// The session is over.
    Closed,
}

/// What the outside world reports to a session.
#[derive(Debug)]
pub enum Event {
    /// The port that was tried is taken.
    BindFailed,
    /// The port that was tried is bound.
    Bound,
    /// What was to be written on the control channel has been written.
    Written,
    /// The client has connected to the data port.
    Connected,
    /// The connector is loaded and initialized, and forwards every delivery
    /// to the data channel.
    Ready,
    /// A command frame has arrived on the control channel.
    Frame(Vec<u8>),
    /// The connector has answered the command.
    Replied(Result<TCStr, Error>),
    /// The control channel is at its end, or something failed.
    Ended,
}

/// What a session asks the outside world to do next.
#[derive(Debug)]
pub enum Action {
    /// Try to bind this port for the data channel.
    Bind(u16),
    /// Write these two bytes on the control channel.
    Announce([u8; 2]),
    /// Wait for the client on the data port.
    Accept,
    /// Load and initialize a connector for the session with this identifier,
    /// and register the handler that forwards deliveries.
    Start(u16),
    /// Read the next command frame.
    Read,
    /// Submit this command to the connector.
    Submit(Vec<u8>),
    /// Write this response on the control channel.
    Write(Vec<u8>),
    /// End the session.
    Close,
}

/// The rule of a session: in phase `phase`, the event `event` leads to the
/// phase `next` and calls for `action`. An event that the phase does not
/// expect ends the session.
pub open spec fn step_spec(phase: Phase, event: Event, next: Phase, action: Action) -> bool {
    match (phase, event) {
        (Phase::Binding(p), Event::BindFailed) => match next_port_spec(Some(p)) {
            Some(q) => next == Phase::Binding(q) && action == Action::Bind(q),
            None => next == Phase::Closed && action is Close,
        },
        (Phase::Binding(p), Event::Bound) => next == Phase::Announcing(p) && (
        action matches Action::Announce(bytes) && bytes@.len() == 2 && bytes@[0] + 256 * bytes@[1]
            == p),
        (Phase::Announcing(p), Event::Written) => next == Phase::AwaitingData(p)
            && action is Accept,
        (Phase::AwaitingData(p), Event::Connected) => next == Phase::Starting(p) && action
            == Action::Start(p),
        (Phase::Starting(p), Event::Ready) => next == Phase::Reading(p) && action is Read,
        (Phase::Reading(p), Event::Frame(command)) => next == Phase::Submitting(p) && (
        action matches Action::Submit(c) && c@ == command@),
        (Phase::Submitting(p), Event::Replied(outcome)) => next == Phase::Replying(p) && (
        action matches Action::Write(frame) && is_response_to(outcome, frame@)),
        (Phase::Replying(p), Event::Written) => next == Phase::Reading(p) && action is Read,
        _ => next == Phase::Closed && action is Close,
    }
}

/// How a session begins: by trying the first data port.
pub fn begin() -> (r: (Phase, Action))
    ensures
        r.0 == Phase::Binding(FIRST_DATA_PORT),
        r.1 == Action::Bind(FIRST_DATA_PORT),
{
    (Phase::Binding(FIRST_DATA_PORT), Action::Bind(FIRST_DATA_PORT))
}

/// Takes a session one step on: from its phase and what happened to the
/// phase that follows and what is to be done next.
pub fn step(phase: Phase, event: Event) -> (r: (Phase, Action))
    ensures
        step_spec(phase, event, r.0, r.1),
{
    match (phase, event) {
        (Phase::Binding(p), Event::BindFailed) => match next_port(Some(p)) {
            Some(q) => (Phase::Binding(q), Action::Bind(q)),
            None => (Phase::Closed, Action::Close),
        },
        (Phase::Binding(p), Event::Bound) => (Phase::Announcing(p), Action::Announce(encode_port(p))),
        (Phase::Announcing(p), Event::Written) => (Phase::AwaitingData(p), Action::Accept),
        (Phase::AwaitingData(p), Event::Connected) => (Phase::Starting(p), Action::Start(p)),
        (Phase::Starting(p), Event::Ready) => (Phase::Reading(p), Action::Read),
        (Phase::Reading(p), Event::Frame(command)) => (Phase::Submitting(p), Action::Submit(command)),
        (Phase::Submitting(p), Event::Replied(outcome)) => {
            let frame = response_frame(&outcome);
            (Phase::Replying(p), Action::Write(frame))
        },
        (Phase::Replying(p), Event::Written) => (Phase::Reading(p), Action::Read),
        _ => (Phase::Closed, Action::Close),
    }
}

/// A session that is over stays over, and asks for nothing but its end.
pub proof fn closed_is_final(event: Event, next: Phase, action: Action)
    requires
        step_spec(Phase::Closed, event, next, action),
    ensures
        next == Phase::Closed,
        action is Close,
{
}

/// The end of the control channel, or any failure, ends the session in
/// whatever phase it stands.
pub proof fn ended_closes(phase: Phase, next: Phase, action: Action)
    requires
        step_spec(phase, Event::Ended, next, action),
    ensures
        next == Phase::Closed,
        action is Close,
{
}

/// A session never changes its data port once it is bound: every phase
/// after the binding holds the port that was bound, until the session ends.
pub proof fn port_is_kept(phase: Phase, event: Event, next: Phase, action: Action)
    requires
        step_spec(phase, event, next, action),
        !(phase is Binding),
    ensures
        next is Closed || session_port(next) == session_port(phase),
        !(next is Binding),
{
}

/// Each action is asked for only where it belongs. The connector is started
/// when the client connects to the data port, and at no other time. A command
/// is submitted only from the phase that reads, and that phase is entered
/// only when the connector has become ready or a response has been written.
pub proof fn actions_come_in_order(phase: Phase, event: Event, next: Phase, action: Action)
    requires
        step_spec(phase, event, next, action),
    ensures
        action is Start ==> phase is AwaitingData && event is Connected && next is Starting,
        action is Accept ==> phase is Announcing && next is AwaitingData,
        action is Announce ==> phase is Binding && event is Bound,
        action is Submit ==> phase is Reading && next is Submitting,
        action is Write ==> phase is Submitting && next is Replying,
        action is Read ==> (phase is Starting || phase is Replying) && next is Reading,
{
}

/// One response per command: from the phase that reads, a command, its
/// outcome and the end of the write lead back to the phase that reads, and
/// what was submitted and written in between are that command and the
/// response to that outcome.
pub proof fn one_response_per_command(
    port: u16,
    command: Vec<u8>,
    outcome: Result<TCStr, Error>,
    first: Phase,
    submit: Action,
    second: Phase,
    write: Action,
    third: Phase,
    read: Action,
)
    requires
        step_spec(Phase::Reading(port), Event::Frame(command), first, submit),
        step_spec(first, Event::Replied(outcome), second, write),
        step_spec(second, Event::Written, third, read),
    ensures
        submit matches Action::Submit(c) && c@ == command@,
        write matches Action::Write(frame) && is_response_to(outcome, frame@),
        read is Read,
        third == Phase::Reading(port),
{
}

/// The data port of a session in phase `phase`; 0 once it is over.
pub open spec fn session_port(phase: Phase) -> u16 {
    match phase {
        Phase::Binding(p) => p,
        Phase::Announcing(p) => p,
        Phase::AwaitingData(p) => p,
        Phase::Starting(p) => p,
        Phase::Reading(p) => p,
        Phase::Submitting(p) => p,
        Phase::Replying(p) => p,
        Phase::Closed => 0,
    }
}

} // verus!
