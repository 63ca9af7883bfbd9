use clip_mesh::connection::{Connection, Step};
use clip_mesh::discovery::DiscoveredPeer;
use clip_mesh::json::Json;
use clip_mesh::p2p_client::{plan_dial, url_encode, DialPlan};
use clip_mesh::p2p_server::{
    bind_address_string, bind_error, read_step, writes_on, Arrival, PeerEvent, ReadStep,
    WriteOutcome, HELLO_TIMEOUT_SECS, MAX_MSG_SIZE, PEER_QUEUE_LEN,
};
use clip_mesh::peers::PeerTable;
use clip_mesh::websocket::{heartbeat_message_at, MeshMessage, MessageType};

fn peer(id: &str) -> DiscoveredPeer {
    DiscoveredPeer {
        device_id: id.to_string(),
        device_name: "Peer".to_string(),
        ip: [192, 168, 0, 10],
        port: 8080,
    }
}

fn ids(table: &PeerTable<u32>) -> Vec<(String, u32)> {
    let mut list: Vec<(String, u32)> =
        table.recipients().into_iter().map(|(id, h)| (id.to_string(), *h)).collect();
    list.sort();
    list
}

#[test]
fn a_table_holds_each_node_once() {
    let mut t: PeerTable<u32> = PeerTable::new();
    assert_eq!(t.len(), 0);
    assert!(t.try_insert("a", 1));
    assert!(t.try_insert("b", 2));
    assert!(!t.try_insert("a", 3));
    assert_eq!(ids(&t), vec![("a".to_string(), 1), ("b".to_string(), 2)]);
    assert!(t.contains_key("b"));
    assert!(!t.contains_key("c"));
    assert_eq!(t.remove("c"), None);
    assert_eq!(t.remove("a"), Some(1));
    assert_eq!(t.remove("a"), None);
    assert_eq!(t.len(), 1);
    assert_eq!(ids(&t), vec![("b".to_string(), 2)]);
}

#[test]
fn texts_are_percent_encoded() {
    assert_eq!(url_encode(""), "");
    assert_eq!(url_encode("AZaz09-._~"), "AZaz09-._~");
    assert_eq!(url_encode("a b/c?d=e&f%"), "a%20b%2Fc%3Fd%3De%26f%25");
    assert_eq!(url_encode("剪"), "%E5%89%AA");
    assert_eq!(url_encode("\n\u{7f}"), "%0A%7F");
}

#[test]
fn the_smaller_id_dials() {
    let t: PeerTable<u32> = PeerTable::new();
    match plan_dial(&peer("b"), "a", "My Mac", &t) {
        DialPlan::Dial(url) => {
            assert_eq!(url, "ws://192.168.0.10:8080/clipmesh?device_id=a&device_name=My%20Mac")
        }
        other => panic!("{:?}", other),
    }
    assert!(matches!(plan_dial(&peer("a"), "b", "n", &t), DialPlan::TheyDial));
    assert!(matches!(plan_dial(&peer("a"), "a", "n", &t), DialPlan::TheyDial));
}

#[test]
fn a_connected_node_is_not_dialled() {
    let mut t: PeerTable<u32> = PeerTable::new();
    t.try_insert("b", 1);
    assert!(matches!(plan_dial(&peer("b"), "a", "n", &t), DialPlan::AlreadyConnected));
    assert!(matches!(plan_dial(&peer("b"), "c", "n", &t), DialPlan::TheyDial));
}

/// A connection from a node that introduced itself with `hello`.
fn called_by(hello: MeshMessage) -> Connection {
    let mut c = Connection::accepted();
    assert_eq!(c.step(), Step::AwaitHello);
    c.hello_arrived(Some(Arrival::Text("{}".to_string())));
    assert_eq!(c.step(), Step::ParseHello);
    assert_eq!(c.pending_text(), "{}");
    c.hello_parsed(Some(hello));
    c
}

#[test]
fn a_dialled_node_is_entered_once() {
    let mut t: PeerTable<u32> = PeerTable::new();
    let mut c = Connection::dialling(&peer("b"), "a", "A", &t);
    let mut second = Connection::dialling(&peer("b"), "a", "A", &t);
    assert_eq!(c.step(), Step::Dial);
    assert_eq!(c.pending_text(), "ws://192.168.0.10:8080/clipmesh?device_id=a&device_name=A");
    c.stepped(true);
    assert_eq!(c.step(), Step::SendHello);
    c.stepped(true);
    assert_eq!(c.step(), Step::Enter);
    c.enter(5, &mut t);
    assert_eq!(c.step(), Step::Announce);
    match c.connected_event() {
        PeerEvent::Connected { device_id, device_name, is_initiator } => {
            assert_eq!((device_id.as_str(), device_name.as_str()), ("b", "Peer"));
            assert!(is_initiator);
        }
        other => panic!("{:?}", other),
    }
    c.stepped(true);
    assert_eq!(c.step(), Step::Serve);
    second.stepped(true);
    second.stepped(true);
    second.enter(6, &mut t);
    assert_eq!(second.step(), Step::Done);
    assert_eq!(ids(&t), vec![("b".to_string(), 5)]);
    assert_eq!(Connection::dialling(&peer("b"), "a", "A", &t).step(), Step::Done);
    assert_eq!(Connection::dialling(&peer("b"), "c", "C", &t).step(), Step::Done);
}

#[test]
fn a_call_that_fails_ends() {
    let t: PeerTable<u32> = PeerTable::new();
    let mut c = Connection::dialling(&peer("b"), "a", "A", &t);
    c.stepped(false);
    assert_eq!(c.step(), Step::Done);
    let mut c = Connection::dialling(&peer("b"), "a", "A", &t);
    c.stepped(true);
    c.stepped(false);
    assert_eq!(c.step(), Step::Done);
}

#[test]
fn a_node_that_introduces_itself_is_entered() {
    let mut t: PeerTable<u32> = PeerTable::new();
    let mut c = called_by(heartbeat_message_at("node-1", "Laptop", 1));
    assert_eq!(c.step(), Step::Enter);
    assert_eq!(c.peer_id(), "node-1");
    c.enter(7, &mut t);
    match c.connected_event() {
        PeerEvent::Connected { device_id, device_name, is_initiator } => {
            assert_eq!((device_id.as_str(), device_name.as_str()), ("node-1", "Laptop"));
            assert!(!is_initiator);
        }
        other => panic!("{:?}", other),
    }
    c.stepped(true);
    assert_eq!(c.step(), Step::Forward);
    assert_eq!(c.take_hello().unwrap().sender_id, "node-1");
    assert!(c.take_hello().is_none());
    c.stepped(false);
    assert_eq!(c.step(), Step::Serve);
    let mut again = called_by(heartbeat_message_at("node-1", "Laptop", 2));
    again.enter(8, &mut t);
    assert_eq!(again.step(), Step::Done);
    assert_eq!(ids(&t), vec![("node-1".to_string(), 7)]);
}

#[test]
fn a_node_without_a_name_goes_by_its_short_id() {
    let c = called_by(MeshMessage {
        msg_type: MessageType::NodeStatus,
        sender_id: "0123456789".to_string(),
        payload: Json::Null,
        timestamp: 0,
    });
    match c.connected_event() {
        PeerEvent::Connected { device_name, .. } => assert_eq!(device_name, "01234567"),
        other => panic!("{:?}", other),
    }
}

#[test]
fn only_a_message_introduces() {
    for arrival in
        [None, Some(Arrival::Close), Some(Arrival::Other), Some(Arrival::Failed), Some(Arrival::Ended)]
    {
        let mut c = Connection::accepted();
        c.hello_arrived(arrival);
        assert_eq!(c.step(), Step::Done);
    }
    // A first message is held to the length limit like any other.
    let mut c = Connection::accepted();
    c.hello_arrived(Some(Arrival::Text("x".repeat(MAX_MSG_SIZE + 1))));
    assert_eq!(c.step(), Step::Done);
    assert_eq!(c.pending_text(), "");
    let mut c = Connection::accepted();
    c.hello_arrived(Some(Arrival::Text("x".repeat(MAX_MSG_SIZE))));
    assert_eq!(c.step(), Step::ParseHello);
    c.hello_parsed(None);
    assert_eq!(c.step(), Step::Done);
}

#[test]
fn leaving_undoes_entering() {
    let mut t: PeerTable<u32> = PeerTable::new();
    t.try_insert("x", 1);
    let before = ids(&t);
    let mut c = called_by(heartbeat_message_at("y", "Y", 1));
    c.enter(2, &mut t);
    assert_eq!(t.len(), 2);
    c.stepped(true);
    c.stepped(true);
    c.stepped(true);
    assert_eq!(c.step(), Step::Leave);
    c.leave(&mut t);
    assert_eq!(ids(&t), before);
    assert_eq!(c.step(), Step::AnnounceGone);
    match c.gone_event() {
        PeerEvent::Disconnected { device_id } => assert_eq!(device_id, "y"),
        other => panic!("{:?}", other),
    }
    c.stepped(true);
    assert_eq!(c.step(), Step::Done);
}

#[test]
fn connections_stay_in_order() {
    // Two calls of one node and one of another, their steps interleaved.
    let mut t: PeerTable<u32> = PeerTable::new();
    let mut online: Vec<String> = Vec::new();
    let mut connections = vec![
        called_by(heartbeat_message_at("a", "A", 1)),
        called_by(heartbeat_message_at("b", "B", 1)),
        called_by(heartbeat_message_at("a", "A", 2)),
    ];
    let mut served: Vec<String> = Vec::new();
    for round in 0..6u32 {
        for (i, c) in connections.iter_mut().enumerate() {
            match c.step() {
                Step::Enter => c.enter(round * 10 + i as u32, &mut t),
                Step::Leave => c.leave(&mut t),
                Step::Announce => {
                    match c.connected_event() {
                        PeerEvent::Connected { device_id, .. } => online.push(device_id),
                        other => panic!("{:?}", other),
                    }
                    c.stepped(true);
                }
                Step::AnnounceGone => {
                    match c.gone_event() {
                        PeerEvent::Disconnected { device_id } => online.retain(|id| *id != device_id),
                        other => panic!("{:?}", other),
                    }
                    c.stepped(true);
                }
                Step::Serve => {
                    served.push(c.peer_id().to_string());
                    assert!(t.contains_key(c.peer_id()));
                    assert!(online.contains(&c.peer_id().to_string()));
                    c.stepped(true);
                }
                Step::Done => {}
                _ => c.stepped(true),
            }
        }
    }
    assert_eq!(served, vec!["a".to_string(), "b".to_string()]);
    assert!(connections.iter().all(|c| c.step() == Step::Done));
    assert!(online.is_empty());
    assert_eq!(t.len(), 0);
}

#[test]
fn long_messages_are_dropped() {
    let fits = "x".repeat(MAX_MSG_SIZE);
    assert!(matches!(read_step(Arrival::Text(fits)), ReadStep::Parse(t) if t.len() == 10_485_760));
    let too_long = "x".repeat(MAX_MSG_SIZE + 1);
    assert!(matches!(read_step(Arrival::Text(too_long)), ReadStep::TooLarge));
    // The limit counts bytes.
    let wide = "剪".repeat(MAX_MSG_SIZE / 3 + 1);
    assert!(matches!(read_step(Arrival::Text(wide)), ReadStep::TooLarge));
}

#[test]
fn reading_stops_at_the_end() {
    assert!(matches!(read_step(Arrival::Other), ReadStep::Skip));
    assert!(matches!(read_step(Arrival::Close), ReadStep::Stop));
    assert!(matches!(read_step(Arrival::Failed), ReadStep::Stop));
    assert!(matches!(read_step(Arrival::Ended), ReadStep::Stop));
}

#[test]
fn writing_stops_when_the_connection_fails() {
    assert!(writes_on(WriteOutcome::Written));
    assert!(writes_on(WriteOutcome::NotEncoded));
    assert!(!writes_on(WriteOutcome::Failed));
}

#[test]
fn the_server_listens_on_all_addresses() {
    assert_eq!(bind_address_string(0), "0.0.0.0:0");
    assert_eq!(bind_address_string(65535), "0.0.0.0:65535");
    assert_eq!(bind_error(80, "denied"), "Failed to bind 0.0.0.0:80: denied");
    assert_eq!((HELLO_TIMEOUT_SECS, PEER_QUEUE_LEN), (10, 64));
}
