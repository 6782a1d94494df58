use city_directory::relay::{
    relay_drain, relay_session, relay_step, ReadEvent, RelayAction, RelayError,
};

#[test]
fn peer_writes_pong_then_closes() {
    let reads = vec![ReadEvent::Data(b"pong".to_vec())];
    let r = relay_session(&Ok(()), &Ok(()), &reads);
    assert_eq!(r, Some(Ok("response: pong".to_owned())));
}

#[test]
fn peer_closes_without_writing() {
    let reads = vec![ReadEvent::Closed];
    let r = relay_session(&Ok(()), &Ok(()), &reads);
    assert_eq!(r, Some(Ok("OK".to_owned())));
}

#[test]
fn nothing_listening_is_connect_failed() {
    let reads: Vec<ReadEvent> = Vec::new();
    let r = relay_session(&Err("connection refused".to_owned()), &Ok(()), &reads);
    assert_eq!(
        r,
        Some(Err(RelayError::ConnectFailed("connection refused".to_owned())))
    );
}

#[test]
fn partial_write_is_write_failed() {
    let reads: Vec<ReadEvent> = Vec::new();
    let r = relay_session(&Ok(()), &Err("broken pipe".to_owned()), &reads);
    assert_eq!(r, Some(Err(RelayError::WriteFailed("broken pipe".to_owned()))));
}

#[test]
fn would_block_spins_until_first_chunk() {
    let reads = vec![
        ReadEvent::WouldBlock,
        ReadEvent::WouldBlock,
        ReadEvent::Data(b"hi".to_vec()),
        ReadEvent::Data(b"ignored second chunk".to_vec()),
    ];
    let r = relay_drain(&reads);
    assert_eq!(r, Some(Ok("response: hi".to_owned())));
}

#[test]
fn read_error_is_read_failed_with_cause() {
    let reads = vec![ReadEvent::WouldBlock, ReadEvent::Failed("reset".to_owned())];
    let r = relay_drain(&reads);
    assert_eq!(r, Some(Err(RelayError::ReadFailed("reset".to_owned()))));
}

#[test]
fn peer_that_never_answers_decides_nothing() {
    let reads = vec![ReadEvent::WouldBlock, ReadEvent::WouldBlock];
    assert_eq!(relay_drain(&reads), None);
}

#[test]
fn invalid_utf8_is_decoded_lossily() {
    let reads = vec![ReadEvent::Data(vec![0xff, 0xfe])];
    let r = relay_drain(&reads);
    assert_eq!(r, Some(Ok("response: \u{fffd}\u{fffd}".to_owned())));
}

#[test]
fn step_retries_exactly_on_would_block() {
    assert!(matches!(relay_step(&ReadEvent::WouldBlock), RelayAction::Retry));
    assert!(matches!(
        relay_step(&ReadEvent::Closed),
        RelayAction::Finish(Ok(_))
    ));
    let act = relay_step(&ReadEvent::Data(b"x".to_vec()));
    match act {
        RelayAction::Finish(Ok(s)) => assert_eq!(s, "response: x"),
        _ => panic!("data must finish with a response"),
    }
}
