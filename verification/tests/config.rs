use clip_mesh::config::{
    default_true, device_id_from, generate_device_id, get_hostname, name_after_host, AppConfig,
    ConfigFile,
};

fn is_drawn(id: &str) -> bool {
    id.len() == 32 && id.bytes().all(|b| b.is_ascii_digit() || (b'a'..=b'f').contains(&b))
}

#[test]
fn a_device_id_is_written_in_hexadecimal() {
    let mut bytes = [0u8; 16];
    for (i, b) in bytes.iter_mut().enumerate() {
        *b = 17 * i as u8;
    }
    assert_eq!(device_id_from(&bytes), "00112233445566778899aabbccddeeff");
}

#[test]
fn drawn_ids_differ() {
    let a = generate_device_id();
    let b = generate_device_id();
    assert!(is_drawn(&a) && is_drawn(&b));
    assert_ne!(a, b);
}

#[test]
fn a_device_is_named_after_its_machine() {
    assert_eq!(name_after_host(Some("desk".to_string())), "desk");
    assert_eq!(name_after_host(None), "Unknown Device");
    assert!(!get_hostname().is_empty());
}

#[test]
fn a_new_configuration_waits_for_a_key() {
    let c = AppConfig::default();
    assert!(is_drawn(&c.device_id));
    assert_eq!(c.encryption_key_hex, "");
    assert_eq!(c.p2p_port, 0);
    assert!(c.auto_start && c.sync_enabled);
    assert!(!c.is_valid());
    let mut c = AppConfig::initial("id".to_string(), "name".to_string());
    assert_eq!((c.device_id.as_str(), c.device_name.as_str()), ("id", "name"));
    c.encryption_key_hex = "x".to_string();
    assert!(c.is_valid());
}

#[test]
fn a_configuration_is_taken_as_it_is() {
    let mut c = AppConfig::initial("id".to_string(), "name".to_string());
    c.p2p_port = 7;
    c.sync_enabled = false;
    let (c, save) = AppConfig::load_from(ConfigFile::Parsed(c));
    assert_eq!((c.device_id.as_str(), c.p2p_port, c.sync_enabled, save), ("id", 7, false, false));
}

#[test]
fn only_a_missing_configuration_is_saved() {
    let (c, save) = AppConfig::load_from(ConfigFile::Missing);
    assert!(is_drawn(&c.device_id) && !c.is_valid() && save);
    let (c, save) = AppConfig::load_from(ConfigFile::Unparsable);
    assert!(is_drawn(&c.device_id) && !c.is_valid() && !save);
}

#[test]
fn switches_are_on_unless_said_otherwise() {
    assert!(default_true());
}
