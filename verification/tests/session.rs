use rotmg::codec::{accept, connect, FrameError};
use rotmg::raw::RawPacket;
use rotmg::session::{Session, Side};

const DATA: &[u8] = &[0, 0, 0, 6, 5, 6];
const KEYS: &[u8] = b"abcd";

#[test]
fn packets_are_forwarded_both_ways() {
    // the client and the server at the two ends, the proxy between them
    let (mut client_rx, mut client_tx) = connect(KEYS);
    let (mut server_rx, mut server_tx) = accept(KEYS);
    let mut session = Session::new(KEYS);
    assert!(session.is_open(Side::Client));
    assert!(session.is_open(Side::Server));
    for _ in 0..3 {
        let mut sent = Vec::new();
        client_tx.send(&mut RawPacket::from_slice(DATA).unwrap(), &mut sent);
        let mut forwarded = Vec::new();
        assert_eq!(session.forward(Side::Client, &sent, &mut forwarded), Ok(1));
        assert_eq!(forwarded, sent);
        server_rx.feed(&forwarded);
        assert_eq!(server_rx.recv().unwrap().unwrap().bytes(), DATA);

        let mut sent = Vec::new();
        server_tx.send(&mut RawPacket::from_slice(DATA).unwrap(), &mut sent);
        let mut forwarded = Vec::new();
        assert_eq!(session.forward(Side::Server, &sent, &mut forwarded), Ok(1));
        client_rx.feed(&forwarded);
        assert_eq!(client_rx.recv().unwrap().unwrap().bytes(), DATA);
    }
}

#[test]
fn frames_are_forwarded_whole_and_in_order() {
    let (_, mut client_tx) = connect(KEYS);
    let (mut server_rx, _) = accept(KEYS);
    let mut session = Session::new(KEYS);
    let frames: Vec<Vec<u8>> = vec![
        vec![0, 0, 0, 7, 1, 0xaa, 0xbb],
        vec![0, 0, 0, 5, 2],
        vec![0, 0, 0, 9, 3, 1, 2, 3, 4],
    ];
    let mut sent = Vec::new();
    for frame in frames.iter() {
        client_tx.send(&mut RawPacket::from_slice(frame).unwrap(), &mut sent);
    }
    // the bytes arrive in pieces that are no frames
    let mut forwarded = Vec::new();
    assert_eq!(session.forward(Side::Client, &sent[..3], &mut forwarded), Ok(0));
    assert!(forwarded.is_empty());
    assert_eq!(session.forward(Side::Client, &sent[3..13], &mut forwarded), Ok(2));
    assert_eq!(forwarded.len(), 12);
    assert_eq!(session.forward(Side::Client, &sent[13..], &mut forwarded), Ok(1));
    server_rx.feed(&forwarded);
    for frame in frames.iter() {
        assert_eq!(server_rx.recv().unwrap().unwrap().bytes(), &frame[..]);
    }
    assert_eq!(server_rx.recv(), Ok(None));
}

#[test]
fn a_bad_frame_ends_the_forwarding() {
    let mut session = Session::new(KEYS);
    let mut forwarded = vec![1, 2, 3];
    assert_eq!(
        session.forward(Side::Server, &[0, 0, 0, 5, 9, 0, 0, 0, 3, 1], &mut forwarded),
        Err(FrameError::InvalidLength(3))
    );
    // what came before the bad frame was forwarded
    assert_eq!(forwarded, vec![1, 2, 3, 0, 0, 0, 5, 9]);
}

#[test]
fn the_session_is_over_when_both_streams_have_ended() {
    let mut session = Session::new(KEYS);
    assert!(!session.close(Side::Client));
    assert!(!session.is_open(Side::Client));
    assert!(session.is_open(Side::Server));
    // the other direction goes on
    let (_, mut server_tx) = accept(KEYS);
    let mut sent = Vec::new();
    server_tx.send(&mut RawPacket::from_slice(DATA).unwrap(), &mut sent);
    let mut forwarded = Vec::new();
    assert_eq!(session.forward(Side::Server, &sent, &mut forwarded), Ok(1));
    assert!(session.close(Side::Server));
    assert!(!session.is_open(Side::Server));
}
