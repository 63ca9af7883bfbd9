//! The node's configuration.
use crate::outside::{hex_encode, host_name, thread_random};
use vstd::prelude::*;

verus! {

/// The directory of the configuration, below the user's configuration directory.
pub const CONFIG_DIRECTORY: &'static str = "com.clipmesh.desktop";

/// The file of the configuration.
pub const CONFIG_FILE: &'static str = "config.json";

/// The extension of the file that is written first and then takes the place of
/// the configuration.
pub const CONFIG_TMP_EXTENSION: &'static str = "json.tmp";

/// Length of a device id before it is written in hexadecimal, in bytes.
pub const DEVICE_ID_SIZE: usize = 16;

/// The configuration of a node.
#[derive(Debug, Clone)]
pub struct AppConfig {
    /// Drawn at the first start and kept from then on.
    pub device_id: String,
    pub device_name: String,
    /// The AES-256 key in hexadecimal, the same on all nodes; empty until it is set.
    pub encryption_key_hex: String,
    /// The port to listen on; zero leaves the choice to the system.
    pub p2p_port: u16,
    pub auto_start: bool,
    /// Whether the clipboard is synchronised.
    pub sync_enabled: bool,
}

/// What was found where the configuration is kept.
#[derive(Debug)]
pub enum ConfigFile {
    /// The file cannot be read.
    Missing,
    /// The file holds no configuration.
    Unparsable,
    Parsed(AppConfig),
}

/// The value of a switch that a configuration leaves out.
pub fn default_true() -> (r: bool)
    ensures
        r,
{
    true
}

/// Whether `c` has the settings that a node begins with, whatever its id and name.
pub open spec fn has_default_settings(c: AppConfig) -> bool {
    &&& c.encryption_key_hex@.len() == 0
    &&& c.p2p_port == 0
    &&& c.auto_start
    &&& c.sync_enabled
}

/// Whether `id` has the form of a drawn device id: thirty-two lower-case
/// hexadecimal digits.
pub open spec fn is_drawn_id(id: Seq<char>) -> bool {
    &&& id.len() == 2 * DEVICE_ID_SIZE
    &&& forall|i: int| 0 <= i < id.len() ==> crate::text::is_lower_hex_digit(#[trigger] id[i])
}

/// The name of a device whose machine is called `host`.
pub open spec fn device_name_for(host: Option<Seq<char>>) -> Seq<char> {
    match host {
        Some(name) => name,
        None => "Unknown Device"@,
    }
}

/// Writes a device id.
pub fn device_id_from(bytes: &[u8; DEVICE_ID_SIZE]) -> (id: String)
    ensures
        id@ == crate::text::hex_lower(bytes@),
        is_drawn_id(id@),
{
    proof {
        crate::text::hex_round_trip(bytes@);
    }
    hex_encode(bytes.as_slice())
}

/// Whether `id` is the hexadecimal form of bytes that the thread's generator gave.
pub closed spec fn id_was_drawn(id: Seq<char>) -> bool {
    exists|bytes: [u8; DEVICE_ID_SIZE]| #[trigger]
        call_ensures(thread_random::<DEVICE_ID_SIZE>, (), bytes) && id == crate::text::hex_lower(
            bytes@,
        )
}

/// A device id that was drawn is the hexadecimal form of all the bytes that the
/// generator gave.
pub(crate) proof fn a_drawn_id_is_what_was_given(id: Seq<char>)
    requires
        id_was_drawn(id),
    ensures
        id.len() == 32,
        exists|bytes: [u8; DEVICE_ID_SIZE]| #[trigger]
            call_ensures(thread_random::<DEVICE_ID_SIZE>, (), bytes) && crate::text::is_hex(id)
                && crate::text::hex_bytes(id) == bytes@,
{
    let bytes = choose|bytes: [u8; DEVICE_ID_SIZE]| #[trigger]
        call_ensures(thread_random::<DEVICE_ID_SIZE>, (), bytes) && id == crate::text::hex_lower(
            bytes@,
        );
    crate::text::hex_round_trip(bytes@);
    assert(bytes@.len() == DEVICE_ID_SIZE);
}

/// Draws a device id.
pub fn generate_device_id() -> (id: String)
    ensures
        is_drawn_id(id@),
        id_was_drawn(id@),
{
    let bytes: [u8; DEVICE_ID_SIZE] = thread_random::<DEVICE_ID_SIZE>();
    device_id_from(&bytes)
}

/// Names a device after its machine.
pub fn name_after_host(host: Option<String>) -> (name: String)
    ensures
        name@ == device_name_for(crate::text::optional_text(host)),
        host matches Some(known) ==> name@ == known@,
        host is None ==> name@ == "Unknown Device"@,
{
    match host {
        Some(name) => name,
        None => "Unknown Device".to_owned(),
    }
}

/// Whether `name` is that of a device whose machine is called what the system says.
pub closed spec fn named_after_machine(name: Seq<char>) -> bool {
    exists|host: Option<String>| #[trigger]
        call_ensures(host_name, (), host) && name == device_name_for(
            crate::text::optional_text(host),
        )
}

/// A device named after its machine bears the name that the system gave, unchanged.
pub(crate) proof fn a_device_is_called_like_its_machine(name: Seq<char>)
    requires
        named_after_machine(name),
    ensures
        exists|host: Option<String>| #[trigger]
            call_ensures(host_name, (), host) && match host {
                Some(known) => name == known@,
                None => name == "Unknown Device"@,
            },
{
}

/// Names this device after its machine, as `name_after_host` does; what the
/// machine is called is for the system to say.
pub fn get_hostname() -> (name: String)
    ensures
        named_after_machine(name@),
{
    name_after_host(host_name())
}

impl AppConfig {
    /// The configuration that a device with the given id and name begins with.
    pub fn initial(device_id: String, device_name: String) -> (c: Self)
        ensures
            c.device_id == device_id,
            c.device_name == device_name,
            has_default_settings(c),
            c.encryption_key_hex@.len() == 0,
            c.p2p_port == 0,
            c.auto_start,
            c.sync_enabled,
    {
        AppConfig {
            device_id,
            device_name,
            encryption_key_hex: String::new(),
            p2p_port: 0,
            auto_start: true,
            sync_enabled: true,
        }
    }

    /// Takes up what was found where the configuration is kept. Without a
    /// configuration the node begins with a new one; the second result says whether
    /// that is to be saved, which it is only where there was no file.
    pub fn load_from(file: ConfigFile) -> (r: (Self, bool))
        ensures
            !(file is Parsed) ==> r.0.encryption_key_hex@.len() == 0 && r.0.p2p_port == 0
                && r.0.auto_start && r.0.sync_enabled,
            match file {
                ConfigFile::Parsed(c) => r.0 == c && !r.1,
                ConfigFile::Unparsable => {
                    &&& has_default_settings(r.0)
                    &&& is_drawn_id(r.0.device_id@)
                    &&& id_was_drawn(r.0.device_id@)
                    &&& named_after_machine(r.0.device_name@)
                    &&& !r.1
                },
                ConfigFile::Missing => {
                    &&& has_default_settings(r.0)
                    &&& is_drawn_id(r.0.device_id@)
                    &&& id_was_drawn(r.0.device_id@)
                    &&& named_after_machine(r.0.device_name@)
                    &&& r.1
                },
            },
    {
        match file {
            ConfigFile::Parsed(c) => (c, false),
            ConfigFile::Unparsable => (AppConfig::default(), false),
            ConfigFile::Missing => (AppConfig::default(), true),
        }
    }

    /// Whether the configuration is complete: the key has been set.
    pub fn is_valid(&self) -> (r: bool)
        ensures
            r == (self.encryption_key_hex@.len() > 0),
    {
        !self.encryption_key_hex.as_str().is_empty()
    }
}

impl Default for AppConfig {
    fn default() -> (c: Self)
        ensures
            has_default_settings(c),
            c.encryption_key_hex@.len() == 0,
            c.p2p_port == 0,
            c.auto_start,
            c.sync_enabled,
            is_drawn_id(c.device_id@),
            id_was_drawn(c.device_id@),
            named_after_machine(c.device_name@),
    {
        AppConfig::initial(generate_device_id(), get_hostname())
    }
}

} // verus!
