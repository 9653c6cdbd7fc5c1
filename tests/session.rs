use docker_client::error::ClientError;
use docker_client::session::{Action, AttachSession, Event, Phase};

fn running_session(id: &str) -> AttachSession {
    let mut s = AttachSession::new(id);
    match s.step(Event::Inspected(Some("running".to_string()))) {
        Action::Attach(p) => assert_eq!(p, format!("/containers/{}/attach?stream=1&stdin=1&stdout=1&stderr=1", id)),
        _ => panic!("expected the attach request"),
    }
    s
}

#[test]
fn session_starts_with_inspect() {
    let s = AttachSession::new("web");
    assert_eq!(s.phase(), Phase::Inspecting);
    assert_eq!(s.inspect_request(), "/containers/web/json");
    assert!(!s.is_done());
}

#[test]
fn non_running_container_never_attaches() {
    for state in [Some("exited".to_string()), Some("paused".to_string()), None] {
        let mut s = AttachSession::new("web");
        match s.step(Event::Inspected(state)) {
            Action::Finish(r) => assert_eq!(r, Err(ClientError::ContainerState)),
            _ => panic!("expected a container state failure"),
        }
        assert!(s.is_done());
        let later = vec![
            Event::Inspected(Some("running".to_string())),
            Event::Opened { width: 80, height: 24 },
            Event::Inbound(vec![1, 2]),
            Event::Input(vec![3]),
            Event::Closed,
        ];
        for ev in later {
            assert!(matches!(s.step(ev), Action::Nothing));
        }
    }
}

#[test]
fn one_resize_at_measured_size() {
    let mut s = running_session("abc");
    match s.step(Event::Opened { width: 80, height: 24 }) {
        Action::Resize(p) => assert_eq!(p, "/containers/abc/resize?w=80&h=24"),
        _ => panic!("expected the resize request"),
    }
    assert_eq!(s.phase(), Phase::Streaming);
    assert!(matches!(s.step(Event::Opened { width: 100, height: 50 }), Action::Nothing));
}

#[test]
fn output_is_inbound_chunks_in_order() {
    let mut s = running_session("abc");
    s.step(Event::Opened { width: 80, height: 24 });
    let chunks: Vec<Vec<u8>> = vec![b"hel".to_vec(), b"l".to_vec(), b"o, world\r\n".to_vec(), vec![0, 255]];
    let input: Vec<u8> = b"ls -l\n".to_vec();
    let mut out = Vec::new();
    let mut sent = Vec::new();
    let mut next_input = 0;
    for (i, c) in chunks.iter().enumerate() {
        for _ in 0..i {
            if next_input < input.len() {
                match s.step(Event::Input(vec![input[next_input]])) {
                    Action::Forward(b) => sent.extend(b),
                    _ => panic!("expected forwarded input"),
                }
                next_input += 1;
            }
        }
        match s.step(Event::Inbound(c.clone())) {
            Action::Write(b) => out.extend(b),
            _ => panic!("expected a write"),
        }
    }
    assert_eq!(out, b"hello, world\r\n\x00\xff".to_vec());
    assert_eq!(sent, input[..next_input].to_vec());
    match s.step(Event::Closed) {
        Action::Finish(r) => assert_eq!(r, Ok(())),
        _ => panic!("expected the end of the session"),
    }
    assert!(matches!(s.step(Event::Inbound(b"late".to_vec())), Action::Nothing));
}

#[test]
fn input_before_attach_is_forwarded() {
    let mut s = AttachSession::new("abc");
    match s.step(Event::Input(vec![7, 8])) {
        Action::Forward(b) => assert_eq!(b, vec![7, 8]),
        _ => panic!("expected forwarded input"),
    }
    assert!(matches!(s.step(Event::Inbound(vec![1])), Action::Nothing));
}

#[test]
fn first_failure_ends_session() {
    let mut s = running_session("abc");
    s.step(Event::Opened { width: 1, height: 1 });
    match s.step(Event::Failed(ClientError::Stream)) {
        Action::Finish(r) => assert_eq!(r, Err(ClientError::Stream)),
        _ => panic!("expected the end of the session"),
    }
    assert!(matches!(s.step(Event::Failed(ClientError::Connection)), Action::Nothing));
    assert!(matches!(s.step(Event::Closed), Action::Nothing));
}

#[test]
fn failed_inspect_ends_session() {
    let mut s = AttachSession::new("abc");
    match s.step(Event::Failed(ClientError::Connection)) {
        Action::Finish(r) => assert_eq!(r, Err(ClientError::Connection)),
        _ => panic!("expected the end of the session"),
    }
}

#[test]
fn stream_closed_before_opening_is_stream_error() {
    let mut s = running_session("abc");
    match s.step(Event::Closed) {
        Action::Finish(r) => assert_eq!(r, Err(ClientError::Stream)),
        _ => panic!("expected the end of the session"),
    }
}

#[test]
fn inspected_running_gives_attach_path() {
    let mut s = AttachSession::new("a/b");
    assert_eq!(
        s.inspected(Ok(Some("running".to_string()))),
        Ok("/containers/a%2Fb/attach?stream=1&stdin=1&stdout=1&stderr=1".to_string())
    );
    assert_eq!(s.phase(), Phase::Attaching);
}

#[test]
fn inspected_other_state_is_container_state_error() {
    let mut s = AttachSession::new("abc");
    assert_eq!(s.inspected(Ok(Some("created".to_string()))), Err(ClientError::ContainerState));
    assert!(s.is_done());
    let mut t = AttachSession::new("abc");
    assert_eq!(t.inspected(Ok(None)), Err(ClientError::ContainerState));
}

#[test]
fn inspected_failure_is_passed_on() {
    let mut s = AttachSession::new("abc");
    assert_eq!(s.inspected(Err(ClientError::Protocol)), Err(ClientError::Protocol));
    assert!(s.is_done());
}

#[test]
fn end_outcomes_by_phase() {
    let mut s = AttachSession::new("abc");
    s.inspected(Ok(Some("running".to_string()))).unwrap();
    assert_eq!(s.end(Ok(())), Err(ClientError::Stream));

    let mut t = AttachSession::new("abc");
    t.inspected(Ok(Some("running".to_string()))).unwrap();
    t.step(Event::Opened { width: 80, height: 24 });
    assert_eq!(t.end(Ok(())), Ok(()));

    let mut u = AttachSession::new("abc");
    u.inspected(Ok(Some("running".to_string()))).unwrap();
    u.step(Event::Opened { width: 80, height: 24 });
    assert_eq!(u.end(Err(ClientError::Connection)), Err(ClientError::Connection));
    assert!(u.is_done());
}
