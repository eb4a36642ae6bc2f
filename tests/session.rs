use cmus_presence::{socket_path, Action, Event, LoopError, Phase, PollLoop, PresenceConfig, ProtocolError};

fn new_loop() -> PollLoop {
    PollLoop::new(5000, 15000, PresenceConfig { separator: "|".to_string(), suffix: String::new() })
}

fn response(block: &str, now: u64) -> Event {
    Event::Response { block: block.to_string(), now }
}

#[test]
fn connects_polls_and_publishes() {
    let mut l = new_loop();
    assert_eq!(l.phase, Phase::Connecting);
    assert!(matches!(l.step(Event::ConnectFailed), Ok(Action::Wait(15000))));
    assert!(matches!(l.step(Event::Elapsed), Ok(Action::Connect)));
    assert!(matches!(l.step(Event::Connected), Ok(Action::RequestStatus)));
    match l.step(response("status playing\nduration 200\nposition 50\n\n", 1000)) {
        Ok(Action::Publish(p)) => assert_eq!(p.end_timestamp, Some(1150)),
        other => panic!("unexpected {:?}", other),
    }
    assert!(matches!(l.step(Event::SinkDone), Ok(Action::Wait(5000))));
    assert_eq!(l.cycles, 1);
    assert!(matches!(l.step(Event::Elapsed), Ok(Action::RequestStatus)));
    assert_eq!(l.phase, Phase::Requesting);
}

#[test]
fn connection_loss_clears_once_then_resumes() {
    let mut l = new_loop();
    let mut actions = Vec::new();
    let events = vec![
        Event::Connected,
        response("status stopped\n\n", 1),
        Event::SinkDone,
        Event::Elapsed,
        Event::IoFailed,
        Event::SinkDone,
        Event::ConnectFailed,
        Event::Elapsed,
        Event::ConnectFailed,
        Event::Elapsed,
        Event::Connected,
    ];
    for e in events {
        actions.push(l.step(e).unwrap());
    }
    let lost = 4;
    assert!(matches!(actions[lost], Action::ClearActivity));
    let clears = actions.iter().filter(|a| matches!(a, Action::ClearActivity)).count();
    assert_eq!(clears, 1);
    let first_connect = actions.iter().position(|a| matches!(a, Action::Connect)).unwrap();
    assert!(first_connect > lost);
    assert!(matches!(actions.last(), Some(Action::RequestStatus)));
    assert_eq!(l.phase, Phase::Requesting);
}

#[test]
fn bad_block_stops_the_loop() {
    let mut l = new_loop();
    l.step(Event::Connected).unwrap();
    let r = l.step(response("status buffering\n\n", 1));
    assert_eq!(r.err(), Some(LoopError::Protocol(ProtocolError::UnknownStatus)));
    assert_eq!(l.phase, Phase::Requesting);
}

#[test]
fn unexpected_event_is_refused() {
    let mut l = new_loop();
    assert_eq!(l.step(Event::SinkDone).err(), Some(LoopError::UnexpectedEvent));
    assert_eq!(l.phase, Phase::Connecting);
}

#[test]
fn socket_path_precedence() {
    let s = |v: &str| Some(v.to_string());
    assert_eq!(socket_path(s("/tmp/sock"), s("/run/u"), s("/cfg"), s("/home/u")), s("/tmp/sock"));
    assert_eq!(socket_path(None, s("/run/u"), s("/cfg"), s("/home/u")), s("/run/u/cmus-socket"));
    assert_eq!(socket_path(None, None, s("/cfg"), s("/home/u")), s("/cfg/cmus/socket"));
    assert_eq!(socket_path(None, None, None, s("/home/u")), s("/home/u/.config/cmus/socket"));
    assert_eq!(socket_path(None, None, None, None), None);
}
