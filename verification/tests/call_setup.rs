use my_voice_chat::net::{accept_step, AcceptStep, CallRole, IncomingEvent, ALPN};

#[test]
fn alpn_bytes() {
    assert_eq!(&ALPN[..], b"my-voice-chat/v1");
}

#[test]
fn role_from_choice() {
    assert_eq!(CallRole::from_choice("1"), CallRole::Host);
    assert_eq!(CallRole::from_choice("2"), CallRole::Client);
    assert_eq!(CallRole::from_choice(""), CallRole::Client);
    assert_eq!(CallRole::from_choice("11"), CallRole::Client);
    assert_eq!(CallRole::from_choice("host"), CallRole::Client);
}

#[test]
fn accept_steps() {
    assert_eq!(accept_step(IncomingEvent::EndpointClosed), AcceptStep::GiveUp);
    assert_eq!(accept_step(IncomingEvent::AcceptFailed), AcceptStep::WaitForNext);
    assert_eq!(accept_step(IncomingEvent::HandshakeFailed), AcceptStep::WaitForNext);
    assert_eq!(accept_step(IncomingEvent::Connected), AcceptStep::UseConnection);
}

#[test]
fn accept_uses_first_connection_after_failures() {
    let events = [
        IncomingEvent::AcceptFailed,
        IncomingEvent::HandshakeFailed,
        IncomingEvent::Connected,
        IncomingEvent::Connected,
    ];
    let mut used = None;
    for (i, e) in events.iter().enumerate() {
        match accept_step(*e) {
            AcceptStep::WaitForNext => continue,
            AcceptStep::UseConnection => {
                used = Some(i);
                break;
            }
            AcceptStep::GiveUp => break,
        }
    }
    assert_eq!(used, Some(2));
}
