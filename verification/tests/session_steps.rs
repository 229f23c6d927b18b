use libtxc::proxy::{begin, step, Action, Event, Phase};
use libtxc::{parse_send_response, Error, TCStr};

fn reply(text: &str) -> Result<TCStr, Error> {
    let mut raw = text.as_bytes().to_vec();
    raw.push(0);
    parse_send_response(TCStr::new(&raw))
}

#[test]
fn session_begins_by_trying_the_first_port() {
    assert!(matches!(begin(), (Phase::Binding(1025), Action::Bind(1025))));
}

#[test]
fn taken_port_leads_to_the_next_one() {
    assert!(matches!(step(Phase::Binding(1025), Event::BindFailed), (Phase::Binding(1026), Action::Bind(1026))));
    assert!(matches!(step(Phase::Binding(65533), Event::BindFailed), (Phase::Binding(65534), Action::Bind(65534))));
    assert!(matches!(step(Phase::Binding(65534), Event::BindFailed), (Phase::Closed, Action::Close)));
}

#[test]
fn bound_port_is_announced_in_two_bytes() {
    match step(Phase::Binding(5555), Event::Bound) {
        (Phase::Announcing(5555), Action::Announce(bytes)) => assert_eq!(bytes, [0xb3, 0x15]),
        other => panic!("{:?}", other),
    }
}

#[test]
fn session_runs_from_binding_to_reading() {
    let (phase, _) = begin();
    let (phase, _) = step(phase, Event::BindFailed);
    let (phase, action) = step(phase, Event::Bound);
    assert!(matches!(action, Action::Announce(b) if b == 1026u16.to_le_bytes()));
    let (phase, action) = step(phase, Event::Written);
    assert!(matches!(action, Action::Accept));
    let (phase, action) = step(phase, Event::Connected);
    assert!(matches!(action, Action::Start(1026)));
    let (phase, action) = step(phase, Event::Ready);
    assert!(matches!(action, Action::Read));
    assert_eq!(phase, Phase::Reading(1026));
}

#[test]
fn each_command_gets_one_response() {
    let command = b"<command id=\"x\"/>\0".to_vec();
    let (phase, action) = step(Phase::Reading(2000), Event::Frame(command.clone()));
    assert_eq!(phase, Phase::Submitting(2000));
    assert!(matches!(action, Action::Submit(c) if c == command));
    let failure = "<result success=\"false\"><message>no</message></result>";
    let (phase, action) = step(phase, Event::Replied(reply(failure)));
    assert_eq!(phase, Phase::Replying(2000));
    assert!(matches!(action, Action::Write(f) if f == failure.as_bytes()));
    let (phase, action) = step(phase, Event::Written);
    assert_eq!(phase, Phase::Reading(2000));
    assert!(matches!(action, Action::Read));
    let (phase, _) = step(phase, Event::Frame(command));
    let (_, action) = step(phase, Event::Replied(reply("<result success=\"true\"/>")));
    assert!(matches!(action, Action::Write(f) if f == b"<result success=\"true\"/>"));
}

#[test]
fn end_of_stream_closes_in_every_phase() {
    let phases = [
        Phase::Binding(1025),
        Phase::Announcing(1025),
        Phase::AwaitingData(1025),
        Phase::Starting(1025),
        Phase::Reading(1025),
        Phase::Submitting(1025),
        Phase::Replying(1025),
        Phase::Closed,
    ];
    for phase in phases {
        assert!(matches!(step(phase, Event::Ended), (Phase::Closed, Action::Close)));
    }
}

#[test]
fn unexpected_event_closes_the_session() {
    assert!(matches!(step(Phase::Reading(1025), Event::Bound), (Phase::Closed, Action::Close)));
    assert!(matches!(step(Phase::Starting(1025), Event::Frame(vec![0])), (Phase::Closed, Action::Close)));
    assert!(matches!(step(Phase::Binding(1025), Event::Ready), (Phase::Closed, Action::Close)));
    assert!(matches!(step(Phase::Announcing(1025), Event::Connected), (Phase::Closed, Action::Close)));
    assert!(matches!(step(Phase::Submitting(1025), Event::Written), (Phase::Closed, Action::Close)));
}

#[test]
fn closed_session_stays_closed() {
    assert!(matches!(step(Phase::Closed, Event::Bound), (Phase::Closed, Action::Close)));
    assert!(matches!(step(Phase::Closed, Event::Frame(vec![1, 0])), (Phase::Closed, Action::Close)));
    assert!(matches!(step(Phase::Closed, Event::Replied(reply("<error>late</error>"))), (Phase::Closed, Action::Close)));
}
