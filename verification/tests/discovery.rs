use clip_mesh::discovery::{
    Address, DaemonCall, DiscoveryManager, Resolution, ResolvedService, SERVICE_TYPE,
};

fn property(name: &str, value: &str) -> (String, String) {
    (name.to_string(), value.to_string())
}

#[test]
fn a_service_names_the_node() {
    let mut m = DiscoveryManager::new();
    let r = m.register_as("0123456789abcdef", "Desk", Some("box".to_string()), 4711);
    assert_eq!(r.instance_name, "clipmesh-01234567");
    assert_eq!(r.host, "box.local.");
    assert_eq!(r.port, 4711);
    assert_eq!(r.txt, vec![property("device_id", "0123456789abcdef"), property("device_name", "Desk")]);
    assert_eq!(r.fullname, "clipmesh-01234567._clipmesh._tcp.local.");
    assert_eq!(SERVICE_TYPE, "_clipmesh._tcp.local.");
}

#[test]
fn a_machine_without_a_name_goes_by_the_id() {
    let mut m = DiscoveryManager::new();
    let r = m.register_as("0123456789abcdef", "Desk", None, 1);
    assert_eq!(r.host, "01234567.local.");
}

#[test]
fn this_machine_can_be_announced() {
    let mut m = DiscoveryManager::new();
    let r = m.register("0123456789abcdef", "Desk", 9).unwrap();
    assert_eq!(r.port, 9);
    assert!(r.host.ends_with(".local."));
    assert_eq!(r.instance_name, "clipmesh-01234567");
}

#[test]
fn only_an_accepted_service_is_withdrawn() {
    let mut m = DiscoveryManager::new();
    let stop = [DaemonCall::StopBrowse("_clipmesh._tcp.local."), DaemonCall::Shutdown];
    assert_eq!(m.shutdown(), stop);
    let r = m.register_as("abc", "n", Some("h".to_string()), 1);
    assert_eq!(m.shutdown(), stop);
    m.service_created(&r);
    for id in ["abc", "xyz"] {
        let r = m.register_as(id, "n", Some("h".to_string()), 1);
        m.service_created(&r);
        let mut calls = vec![DaemonCall::Unregister(format!("clipmesh-{}._clipmesh._tcp.local.", id))];
        calls.extend(stop.clone());
        assert_eq!(m.shutdown(), calls);
        assert_eq!(m.shutdown(), calls);
    }
}

#[test]
fn an_announced_node_is_found_by_others() {
    let mut a = DiscoveryManager::new();
    let mut b = DiscoveryManager::new();
    let r = a.register_as("aaa", "Node A", Some("ha".to_string()), 1000);
    let _ = b.register_as("bbb", "Node B", Some("hb".to_string()), 2000);
    for reversed in [false, true] {
        let mut properties = r.txt.clone();
        if reversed {
            properties.reverse();
        }
        let service = ResolvedService {
            properties,
            address: Some(Address::V4([192, 168, 1, 7])),
            port: r.port,
        };
        match b.resolve(&service) {
            Resolution::Found(peer) => {
                assert_eq!(peer.device_id, "aaa");
                assert_eq!(peer.device_name, "Node A");
                assert_eq!(peer.ip, [192, 168, 1, 7]);
                assert_eq!(peer.port, 1000);
            }
            other => panic!("{:?}", other),
        }
        assert!(matches!(a.resolve(&service), Resolution::Ignored));
    }
}

#[test]
fn a_service_without_an_id_is_ignored() {
    let m = DiscoveryManager::new();
    let mut service = ResolvedService {
        properties: vec![property("device_name", "x")],
        address: Some(Address::V4([1, 2, 3, 4])),
        port: 1,
    };
    assert!(matches!(m.resolve(&service), Resolution::Ignored));
    service.properties.push(property("device_id", ""));
    assert!(matches!(m.resolve(&service), Resolution::Ignored));
}

#[test]
fn a_service_without_a_name_is_unknown() {
    let m = DiscoveryManager::new();
    let service = ResolvedService {
        properties: vec![property("device_id", "x"), property("device_id", "y")],
        address: Some(Address::V4([1, 2, 3, 4])),
        port: 1,
    };
    match m.resolve(&service) {
        Resolution::Found(peer) => {
            assert_eq!((peer.device_id.as_str(), peer.device_name.as_str()), ("x", "Unknown"))
        }
        other => panic!("{:?}", other),
    }
}

#[test]
fn a_service_needs_an_ipv4_address() {
    let m = DiscoveryManager::new();
    for address in [None, Some(Address::V6)] {
        let service =
            ResolvedService { properties: vec![property("device_id", "x")], address, port: 1 };
        assert!(matches!(m.resolve(&service), Resolution::NoIpv4));
    }
}
