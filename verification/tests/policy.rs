use rotmg::policy::{
    accept_with_policy, Accepted, PolicyFile, Probe, ProbeAction, Verdict, PROBE_TIMEOUT_MS,
    REQUEST_LEN,
};

const REQUEST_MESSAGE: &[u8] = b"<policy-file-request/>\0";

const ALLOW_ALL: &str = "<?xml version=\"1.0\"?>
<!DOCTYPE cross-domain-policy SYSTEM \"/xml/dtds/cross-domain-policy.dtd\">
<cross-domain-policy>
    <site-control permitted-cross-domain-policies=\"all\"/>
    <allow-access-from domain=\"*\" to-ports=\"*\"/>
</cross-domain-policy>
";

#[test]
fn request_message_is_23_bytes() {
    assert_eq!(REQUEST_LEN, 23);
    assert_eq!(REQUEST_MESSAGE.len(), REQUEST_LEN);
    assert_eq!(PROBE_TIMEOUT_MS, 10_000);
}

#[test]
fn policy_probe_is_answered_with_the_policy_file() {
    let policy = PolicyFile::allow_all();
    assert_eq!(policy.contents(), ALLOW_ALL);
    let mut probe = Probe::new();
    let action = policy.handle_connection(&mut probe, REQUEST_MESSAGE);
    assert_eq!(action, ProbeAction::Respond(ALLOW_ALL.as_bytes().to_vec()));
    assert_eq!(probe.waited_ms(), 0);

    let custom = PolicyFile::new("<cross-domain-policy/>".to_string());
    assert_eq!(custom.contents(), "<cross-domain-policy/>");
    let mut probe = Probe::new();
    assert_eq!(
        custom.handle_connection(&mut probe, REQUEST_MESSAGE),
        ProbeAction::Respond(b"<cross-domain-policy/>".to_vec())
    );
}

#[test]
fn more_than_the_request_is_still_a_request() {
    let mut observed = REQUEST_MESSAGE.to_vec();
    observed.extend_from_slice(b"more");
    assert_eq!(Probe::new().observe(&observed), Verdict::Respond);
}

#[test]
fn anything_else_is_a_game_connection() {
    // the header of a frame
    assert_eq!(Probe::new().observe(&[0, 0, 0, 6, 5, 6]), Verdict::Game);
    // a request that goes wrong at the last byte
    let mut observed = REQUEST_MESSAGE.to_vec();
    observed[22] = b'\n';
    assert_eq!(Probe::new().observe(&observed), Verdict::Game);
    // a request that goes wrong early, seen in part
    assert_eq!(Probe::new().observe(b"<policy-file-requesT"), Verdict::Game);
    assert_eq!(Probe::new().observe(b"x"), Verdict::Game);
    let policy = PolicyFile::allow_all();
    let mut probe = Probe::new();
    assert_eq!(policy.handle_connection(&mut probe, b"<p?"), ProbeAction::Game);
    assert_eq!(probe.waited_ms(), 0);
}

#[test]
fn a_prefix_of_the_request_waits_with_backoff() {
    let mut probe = Probe::new();
    assert_eq!(probe.observe(b""), Verdict::Wait(1));
    assert_eq!(probe.observe(b"<"), Verdict::Wait(2));
    assert_eq!(probe.observe(b"<policy"), Verdict::Wait(4));
    assert_eq!(probe.waited_ms(), 7);
    assert_eq!(probe.observe(&REQUEST_MESSAGE[..22]), Verdict::Wait(8));
    assert_eq!(probe.observe(REQUEST_MESSAGE), Verdict::Respond);
    assert_eq!(probe.waited_ms(), 15);
}

#[test]
fn request_in_fragments_is_handled_as_a_policy_request() {
    // two more bytes at each look, one look per backoff interval
    let policy = PolicyFile::allow_all();
    let mut probe = Probe::new();
    let mut seen = 1;
    let mut waits = vec![];
    loop {
        match policy.handle_connection(&mut probe, &REQUEST_MESSAGE[..seen]) {
            ProbeAction::Wait(ms) => {
                waits.push(ms);
                seen = (seen + 2).min(REQUEST_MESSAGE.len());
            }
            ProbeAction::Respond(bytes) => {
                assert_eq!(bytes, ALLOW_ALL.as_bytes());
                break;
            }
            other => panic!("the request was not recognised: {:?}", other),
        }
    }
    assert_eq!(waits, vec![1, 2, 4, 8, 16, 32, 64, 128, 256, 512, 1024]);
    assert!(probe.waited_ms() < PROBE_TIMEOUT_MS);
}

#[test]
fn a_probe_that_never_completes_times_out_within_ten_seconds() {
    let mut probe = Probe::new();
    let mut waits = vec![];
    loop {
        match probe.observe(b"<policy-file") {
            Verdict::Wait(ms) => waits.push(ms),
            Verdict::TimedOut => break,
            other => panic!("unexpected verdict {:?}", other),
        }
    }
    assert_eq!(waits, vec![1, 2, 4, 8, 16, 32, 64, 128, 256, 512, 1024, 2048, 4096]);
    assert_eq!(probe.waited_ms(), 8191);
    assert!(probe.waited_ms() <= PROBE_TIMEOUT_MS);
    // it stays timed out, and a whole request is still answered
    assert_eq!(probe.observe(b"<"), Verdict::TimedOut);
    assert_eq!(probe.observe(REQUEST_MESSAGE), Verdict::Respond);
}

#[test]
fn one_byte_per_interval_runs_into_the_timeout() {
    // thirteen waits are all that ten seconds allow: the fourteenth byte
    // comes too late
    let mut probe = Probe::new();
    for seen in 1..=13 {
        assert!(matches!(probe.observe(&REQUEST_MESSAGE[..seen]), Verdict::Wait(_)));
    }
    assert_eq!(probe.observe(&REQUEST_MESSAGE[..14]), Verdict::TimedOut);
}

#[test]
fn accept_with_policy_hands_out_the_codec() {
    let policy = PolicyFile::allow_all();
    let mut probe = Probe::new();
    match accept_with_policy(b"abcd", &policy, &mut probe, &[0, 0, 0, 6, 5, 6]) {
        Accepted::Game(mut rx, _) => {
            rx.feed(&[0, 0, 0, 5, 1]);
            assert_eq!(rx.recv().unwrap().unwrap().bytes(), &[0, 0, 0, 5, 1]);
        }
        _ => panic!("a game connection was not accepted"),
    }
    assert!(matches!(
        accept_with_policy(b"abcd", &policy, &mut probe, REQUEST_MESSAGE),
        Accepted::Policy(bytes) if bytes == ALLOW_ALL.as_bytes()
    ));
    assert!(matches!(
        accept_with_policy(b"abcd", &policy, &mut probe, b"<pol"),
        Accepted::Wait(1)
    ));
}
