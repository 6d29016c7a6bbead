use punchr::action::{Action, Input};
use punchr::event::{ConnectedPoint, DcutrEvent, SwarmEvent};
use punchr::message::{GetAddrInfoResponse, HolePunchOutcome, TrackHolePunchRequest};
use punchr::multiaddr::Multiaddr;
use punchr::session::{Client, Session, SessionError};

const REMOTE: [u8; 4] = [0x12, 0x02, 7, 7];

fn encode(text: &str) -> Vec<u8> {
    text.parse::<libp2p::Multiaddr>().unwrap().to_vec()
}

fn client(rounds: Option<usize>) -> Client {
    Client::new(vec![0x12, 0x01, 1], "agent".to_string(), "key".to_string(), rounds)
}

fn session(rounds: Option<usize>) -> Session {
    Session::new(client(rounds))
}

fn step(session: Session, input: Input, now: u64, later: u64) -> (Session, Action) {
    assert!(session.expects(&input));
    match session.advance_at(input, now, later) {
        Ok(next) => next,
        Err(_) => panic!("the input is refused"),
    }
}

fn set_up(names: &[&str]) -> Input {
    Input::SetUp { protocol_names: names.iter().map(|name| name.as_bytes().to_vec()).collect() }
}

fn addr_info(remote_id: &[u8], addresses: &[&str]) -> Input {
    Input::AddrInfo {
        response: GetAddrInfoResponse {
            remote_id: remote_id.to_vec(),
            multi_addresses: addresses.iter().map(|address| encode(address)).collect(),
        },
        listen_addresses: vec![encode("/ip4/127.0.0.1/tcp/4001")],
    }
}

fn relayed_connection() -> SwarmEvent {
    SwarmEvent::ConnectionEstablished {
        peer_id: REMOTE.to_vec(),
        endpoint: ConnectedPoint::Dialer {
            address: Multiaddr::decode(encode("/ip4/9.9.9.9/tcp/1/p2p-circuit")).unwrap(),
        },
        num_established: 1,
    }
}

fn upgraded() -> SwarmEvent {
    SwarmEvent::Dcutr(DcutrEvent::DirectConnectionUpgradeSucceeded)
}

fn report(action: Action) -> TrackHolePunchRequest {
    match action {
        Action::TrackHolePunch(request) => request,
        _ => panic!("no report"),
    }
}

/// Begins a round and goes on until the remote peer is asked for.
fn fetch(session: Session, begin: Input, names: &[&str]) -> Session {
    let (session, action) = step(session, begin, 0, 0);
    assert!(matches!(action, Action::SetUp));
    let (session, action) = step(session, set_up(names), 0, 0);
    match action {
        Action::Register(request) => {
            assert_eq!(request.client_id, vec![0x12, 0x01, 1]);
            assert_eq!(request.agent_version, "agent");
            assert_eq!(request.protocols, vec!["/a", "/b"]);
            assert_eq!(request.api_key, "key");
        }
        _ => panic!("no registration"),
    }
    let (session, action) = step(session, Input::Registered, 0, 0);
    match action {
        Action::GetAddrInfo(request) => {
            assert_eq!(request.host_id, vec![0x12, 0x01, 1]);
            assert_eq!(request.all_host_ids, vec![vec![0x12, 0x01, 1]]);
            assert_eq!(request.api_key, "key");
        }
        _ => panic!("no question"),
    }
    session
}

#[test]
fn session_without_rounds_finishes_at_once() {
    let (session, action) = step(session(Some(0)), Input::Begin, 0, 0);
    assert!(matches!(action, Action::Finish));
    for input in [Input::Begin, Input::Registered, Input::Dialed, Input::Reported, Input::Rested] {
        assert!(!session.expects(&input));
    }
}

#[test]
fn round_with_a_hole_punch() {
    let session = fetch(session(Some(1)), Input::Begin, &["/a", "/b"]);
    let addresses =
        ["/ip4/1.2.3.4/udp/5/quic", "/ip4/1.2.3.4/tcp/5", "/ip4/9.9.9.9/tcp/1/p2p-circuit"];
    let (session, action) = step(session, addr_info(&REMOTE, &addresses), 100, 0);
    match action {
        Action::Dial { peer_id, addresses } => {
            assert_eq!(peer_id, REMOTE.to_vec());
            assert_eq!(
                addresses,
                vec![encode("/ip4/1.2.3.4/tcp/5"), encode("/ip4/9.9.9.9/tcp/1/p2p-circuit")]
            );
        }
        _ => panic!("no dial"),
    }
    let (session, action) = step(session, Input::Dialed, 0, 0);
    assert!(matches!(action, Action::AwaitEvent));
    let (session, action) = step(session, Input::Event(SwarmEvent::Other), 150, 0);
    assert!(matches!(action, Action::AwaitEvent));
    let (session, action) = step(session, Input::Event(relayed_connection()), 200, 0);
    assert!(matches!(action, Action::AwaitEvent));
    let (session, action) = step(session, Input::Event(upgraded()), 300, 310);
    let request = report(action);
    assert_eq!(request.client_id, vec![0x12, 0x01, 1]);
    assert_eq!(request.remote_id, REMOTE.to_vec());
    assert_eq!(
        request.remote_multi_addresses,
        vec![encode("/ip4/1.2.3.4/tcp/5"), encode("/ip4/9.9.9.9/tcp/1/p2p-circuit")]
    );
    assert_eq!(request.listen_multi_addresses, vec![encode("/ip4/127.0.0.1/tcp/4001")]);
    assert_eq!(request.api_key, "key");
    assert_eq!(request.connect_started_at, 100);
    assert_eq!(request.connect_ended_at, 200);
    assert_eq!(request.ended_at, 310);
    assert_eq!(request.outcome, HolePunchOutcome::Success);
    let (session, action) = step(session, Input::Reported, 0, 0);
    assert!(matches!(action, Action::Rest { secs: 1 }));
    let (_, action) = step(session, Input::Rested, 0, 0);
    assert!(matches!(action, Action::Finish));
}

#[test]
fn round_that_is_cancelled_is_not_followed_by_a_rest() {
    let session = fetch(session(Some(1)), Input::Begin, &["/a", "/b"]);
    let (session, action) =
        step(session, addr_info(&REMOTE, &["/ip4/1.2.3.4/udp/5/quic"]), 100, 110);
    let request = report(action);
    assert_eq!(request.outcome, HolePunchOutcome::Cancelled);
    assert_eq!(request.connect_started_at, 100);
    assert_eq!(request.connect_ended_at, 110);
    assert_eq!(request.ended_at, 110);
    assert!(request.remote_multi_addresses.is_empty());
    assert_eq!(request.remote_id, REMOTE.to_vec());
    let (_, action) = step(session, Input::Reported, 0, 0);
    assert!(matches!(action, Action::Finish));
}

#[test]
fn peer_without_addresses_is_not_dialed() {
    let session = fetch(session(None), Input::Begin, &["/a", "/b"]);
    let (_, action) = step(session, addr_info(&REMOTE, &[]), 100, 110);
    assert_eq!(report(action).outcome, HolePunchOutcome::Cancelled);
}

#[test]
fn protocols_are_those_of_the_first_round() {
    let session = fetch(session(Some(2)), Input::Begin, &["/a", "/b"]);
    let (session, _) = step(session, addr_info(&REMOTE, &[]), 100, 110);
    fetch(session, Input::Reported, &["/c"]);
}

#[test]
fn every_round_is_reported_once() {
    let rounds = 4;
    let mut session = session(Some(rounds));
    let mut input = Input::Begin;
    let mut setups = 0;
    let mut reports = 0;
    loop {
        let (next, action) = step(session, input, 100, 200);
        session = next;
        input = match action {
            Action::SetUp => {
                setups += 1;
                set_up(&["/a"])
            }
            Action::Register(_) => Input::Registered,
            Action::GetAddrInfo(_) => {
                if setups % 2 == 0 {
                    addr_info(&REMOTE, &["/ip4/1.2.3.4/udp/5/quic"])
                } else {
                    addr_info(&REMOTE, &["/ip4/1.2.3.4/tcp/5"])
                }
            }
            Action::Dial { .. } => Input::Dialed,
            Action::AwaitEvent => Input::Event(upgraded()),
            Action::TrackHolePunch(_) => {
                reports += 1;
                assert_eq!(reports, setups);
                Input::Reported
            }
            Action::Rest { .. } => Input::Rested,
            Action::Finish => break,
        };
    }
    assert_eq!(setups, rounds);
    assert_eq!(reports, rounds);
}

#[test]
fn session_waits_for_one_kind_of_input() {
    let session = fetch(session(Some(1)), Input::Begin, &["/a", "/b"]);
    assert!(!session.expects(&Input::Begin));
    assert!(!session.expects(&Input::Registered));
    assert!(!session.expects(&Input::Event(SwarmEvent::Other)));
    assert!(session.expects(&addr_info(&REMOTE, &[])));
    let (session, _) = step(session, addr_info(&REMOTE, &["/ip4/1.2.3.4/tcp/5"]), 100, 0);
    assert!(session.expects(&Input::Dialed));
    let (session, _) = step(session, Input::Dialed, 0, 0);
    assert!(session.expects(&Input::Event(upgraded())));
    assert!(!session.expects(&Input::Event(SwarmEvent::Dcutr(
        DcutrEvent::InitiatedDirectConnectionUpgrade
    ))));
}

#[test]
fn protocol_name_that_is_no_text_ends_the_session() {
    let (session, _) = step(session(Some(1)), Input::Begin, 0, 0);
    let input = Input::SetUp { protocol_names: vec![b"/a".to_vec(), vec![0xff]] };
    assert!(matches!(session.advance(input), Err(SessionError::ProtocolName(_))));
}

#[test]
fn remote_id_that_is_none_ends_the_session() {
    let session = fetch(session(Some(1)), Input::Begin, &["/a", "/b"]);
    let input = addr_info(&[1, 2, 3], &["/ip4/1.2.3.4/tcp/5"]);
    assert!(matches!(session.advance(input), Err(SessionError::RemoteId(_))));
}

#[test]
fn remote_address_that_is_none_ends_the_session() {
    let session = fetch(session(Some(1)), Input::Begin, &["/a", "/b"]);
    let input = Input::AddrInfo {
        response: GetAddrInfoResponse {
            remote_id: REMOTE.to_vec(),
            multi_addresses: vec![encode("/ip4/1.2.3.4/udp/5/quic"), vec![0x7f]],
        },
        listen_addresses: vec![],
    };
    assert!(matches!(session.advance(input), Err(SessionError::RemoteAddress(_))));
}

#[test]
fn bad_remote_id_is_told_before_bad_addresses() {
    let session = fetch(session(Some(1)), Input::Begin, &["/a", "/b"]);
    let input = Input::AddrInfo {
        response: GetAddrInfoResponse { remote_id: vec![], multi_addresses: vec![vec![0x7f]] },
        listen_addresses: vec![],
    };
    assert!(matches!(session.advance(input), Err(SessionError::RemoteId(_))));
}

#[test]
fn clock_that_goes_backwards_ends_the_session() {
    let session = fetch(session(Some(1)), Input::Begin, &["/a", "/b"]);
    let (session, _) = step(session, addr_info(&REMOTE, &["/ip4/1.2.3.4/tcp/5"]), 100, 0);
    let (session, _) = step(session, Input::Dialed, 0, 0);
    let initiated = SwarmEvent::Dcutr(DcutrEvent::RemoteInitiatedDirectConnectionUpgrade);
    let (session, _) = step(session, Input::Event(initiated), u64::MAX, 0);
    assert!(matches!(
        session.advance(Input::Event(upgraded())),
        Err(SessionError::Clock(punchr::clock::ClockError::WentBackwards))
    ));
}

#[test]
fn session_runs_by_the_clock() {
    let before = punchr::clock::unix_time_now().unwrap();
    let (session, _) = session(None).advance(Input::Begin).ok().unwrap();
    let (session, _) = session.advance(set_up(&["/a"])).ok().unwrap();
    let (session, _) = session.advance(Input::Registered).ok().unwrap();
    let (session, _) =
        session.advance(addr_info(&REMOTE, &["/ip4/1.2.3.4/tcp/5"])).ok().unwrap();
    let (session, _) = session.advance(Input::Dialed).ok().unwrap();
    let (session, _) = session.advance(Input::Event(relayed_connection())).ok().unwrap();
    let (session, action) = session.advance(Input::Event(upgraded())).ok().unwrap();
    let request = report(action);
    assert!(before <= request.connect_started_at);
    assert!(request.connect_started_at <= request.connect_ended_at);
    assert!(request.connect_ended_at <= request.ended_at);
    let (session, action) = session.advance(Input::Reported).ok().unwrap();
    assert!(matches!(action, Action::Rest { secs: 1 }));
    let (_, action) = session.advance(Input::Rested).ok().unwrap();
    assert!(matches!(action, Action::SetUp));
}

#[test]
fn remote_is_chosen_by_its_protocols() {
    let quic = Multiaddr { bytes: vec![1], protocols: vec!["quic".to_string()] };
    let tcp = Multiaddr { bytes: vec![2], protocols: vec!["tcp".to_string()] };
    let (_, action) =
        client(None).turn_to_remote_at(vec![9], &vec![quic, tcp], vec![vec![3]], 10, 20);
    match action {
        Action::Dial { peer_id, addresses } => {
            assert_eq!(peer_id, vec![9]);
            assert_eq!(addresses, vec![vec![2]]);
        }
        _ => panic!("no dial"),
    }
    let quic = Multiaddr { bytes: vec![1], protocols: vec!["quic".to_string()] };
    let (_, action) = client(None).turn_to_remote_at(vec![9], &vec![quic], vec![vec![3]], 10, 20);
    let request = report(action);
    assert_eq!(request.remote_id, vec![9]);
    assert_eq!(request.listen_multi_addresses, vec![vec![3]]);
    assert_eq!(request.connect_started_at, 10);
    assert_eq!(request.ended_at, 20);
}
