use clip_mesh::config::AppConfig;
use clip_mesh::p2p_server::PeerEvent;
use clip_mesh::service::{
    advance_start, begin_start, check_start, peer_notice, Due, ServiceSlot, StartStage,
    StepOutcome, SyncSwitch,
};

fn config(key: &str, port: u16) -> AppConfig {
    let mut c = AppConfig::initial("id".to_string(), "name".to_string());
    c.encryption_key_hex = key.to_string();
    c.p2p_port = port;
    c
}

#[test]
fn toggling_twice_changes_nothing() {
    let mut s = SyncSwitch::new();
    assert!(s.get_sync_status());
    assert!(s.toggle_sync());
    assert!(s.is_paused() && !s.get_sync_status());
    assert!(!s.toggle_sync());
    assert!(!s.is_paused() && s.get_sync_status());
}

#[test]
fn starting_needs_a_key() {
    assert_eq!(check_start(&config("", 0)), Err("请先设置加密密钥".to_string()));
    assert_eq!(check_start(&config("zz", 0)), Ok(()));
}

#[test]
fn old_services_are_taken_out_before_new_ones() {
    let mut slot: ServiceSlot<u8, u16> = ServiceSlot::new();
    let c = config("key", 0);
    let mut live: Vec<u8> = Vec::new();
    for i in 0..3u8 {
        if i > 0 {
            // Without a key what is stored stays.
            assert!(slot.start_due(&config("", 0)).is_err());
            match slot.start_due(&c) {
                Ok(Due::Cancel(token)) => live.retain(|t| *t != token),
                other => panic!("{:?}", other),
            }
            assert!(live.is_empty());
            match slot.start_due(&c) {
                Ok(Due::Abort(task)) => assert_eq!(task, 100 + u16::from(i) - 1),
                other => panic!("{:?}", other),
            }
        }
        assert!(matches!(slot.start_due(&c), Ok(Due::Start)));
        assert!(matches!(slot.start_due(&c), Ok(Due::Start)));
        slot.install(i, 100 + u16::from(i));
        live.push(i);
        assert_eq!(live, vec![i]);
    }
}

#[test]
fn a_bad_key_stops_the_start() {
    match begin_start(&config("00", 0)) {
        Ok(_) => panic!("a key of one byte was taken"),
        Err(e) => assert_eq!(e, "Invalid key size: expected 32 bytes, got 1"),
    }
    match begin_start(&config("0g", 0)) {
        Ok(_) => panic!("a key that is no hexadecimal was taken"),
        Err(e) => assert_eq!(e, "Invalid hex key: Invalid character 'g' at position 1"),
    }
}

#[test]
fn services_start_step_by_step() {
    let (cipher, mut stage) = begin_start(&config(&"ab".repeat(32), 5)).ok().unwrap();
    assert!(cipher.encrypt_text("x", &[]).is_ok());
    assert_eq!(stage, StartStage::Bind { port: 5 });
    stage = advance_start(stage, StepOutcome::Bound(6));
    assert_eq!(stage, StartStage::CreateDiscovery { port: 6 });
    stage = advance_start(stage, StepOutcome::Done);
    assert_eq!(stage, StartStage::Register { port: 6 });
    stage = advance_start(stage, StepOutcome::Done);
    assert_eq!(stage, StartStage::Browse { port: 6 });
    stage = advance_start(stage, StepOutcome::Done);
    assert_eq!(stage, StartStage::Serving { port: 6 });
}

#[test]
fn a_failed_step_stops_the_start() {
    for failing in 0..4 {
        let mut stage = StartStage::Bind { port: 0 };
        for step in 0..4 {
            let outcome = if step == failing {
                StepOutcome::Failed
            } else if step == 0 {
                StepOutcome::Bound(1)
            } else {
                StepOutcome::Done
            };
            stage = advance_start(stage, outcome);
        }
        assert_eq!(stage, StartStage::Aborted);
    }
}

#[test]
fn a_node_that_comes_is_announced() {
    let n = peer_notice(&PeerEvent::Connected {
        device_id: "d".to_string(),
        device_name: "n".to_string(),
        is_initiator: true,
    });
    assert_eq!(n.state, Some("Connected"));
    assert_eq!(n.tray, Some("状态: 已连接 ●"));
    assert_eq!(n.event.get_text("type"), Some("connected"));
    assert_eq!(n.event.get_text("device_id"), Some("d"));
    assert_eq!(n.event.get_text("device_name"), Some("n"));
}

#[test]
fn a_node_that_goes_is_announced() {
    let n = peer_notice(&PeerEvent::Disconnected { device_id: "d".to_string() });
    assert_eq!((n.state, n.tray), (None, None));
    assert_eq!(n.event.get_text("type"), Some("disconnected"));
    assert_eq!(n.event.get_text("device_id"), Some("d"));
    assert!(n.event.get("device_name").is_none());
}
