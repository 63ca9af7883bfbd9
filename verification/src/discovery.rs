//! Announcing this node on the local network by mDNS and recognising others.
//!
//! The service is of the type `_clipmesh._tcp.local.`; its TXT record carries the
//! device id as `device_id` and the device name as `device_name`.
use crate::outside::host_name;
use crate::text::same_text;
use crate::websocket::short_id;
use vstd::prelude::*;

verus! {

/// The type under which nodes announce themselves.
pub const SERVICE_TYPE: &'static str = "_clipmesh._tcp.local.";

/// A node that was found on the network.
#[derive(Debug, Clone)]
pub struct DiscoveredPeer {
    pub device_id: String,
    pub device_name: String,
    /// The four parts of the IPv4 address.
    pub ip: [u8; 4],
    /// The port that its WebSocket server listens on.
    pub port: u16,
}

/// The service that a node announces.
#[derive(Debug)]
pub struct Registration {
    pub instance_name: String,
    pub host: String,
    pub port: u16,
    /// The TXT record, name and value.
    pub txt: Vec<(String, String)>,
    /// The instance name with the service type behind it.
    pub fullname: String,
}

/// An address that a service was resolved to.
#[derive(Debug, Clone, Copy, PartialEq, Eq)]
pub enum Address {
    V4([u8; 4]),
    V6,
}

/// A service that was resolved.
#[derive(Debug)]
pub struct ResolvedService {
    /// The TXT record, name and value.
    pub properties: Vec<(String, String)>,
    /// The first of its addresses.
    pub address: Option<Address>,
    pub port: u16,
}

/// What to make of a resolved service.
#[derive(Debug)]
pub enum Resolution {
    /// It is this node, or does not say which node it is.
    Ignored,
    /// It has no IPv4 address to connect to.
    NoIpv4,
    Found(DiscoveredPeer),
}

/// Something to ask of the mDNS daemon.
#[derive(Debug, Clone, PartialEq, Eq)]
pub enum DaemonCall {
    /// Withdraw the service with this full name.
    Unregister(String),
    /// Stop browsing for services of this type.
    StopBrowse(&'static str),
    /// Stop altogether.
    Shutdown,
}

/// `DaemonCall`, over sequences.
pub enum DaemonCallModel {
    Unregister(Seq<char>),
    StopBrowse(Seq<char>),
    Shutdown,
}

impl View for DaemonCall {
    type V = DaemonCallModel;

    open spec fn view(&self) -> DaemonCallModel {
        match *self {
            DaemonCall::Unregister(fullname) => DaemonCallModel::Unregister(fullname@),
            DaemonCall::StopBrowse(service_type) => DaemonCallModel::StopBrowse(service_type@),
            DaemonCall::Shutdown => DaemonCallModel::Shutdown,
        }
    }
}

/// What this node has announced.
pub struct DiscoveryManager {
    our_device_id: String,
    instance_fullname: String,
}

/// The value of the first property called `key`.
pub open spec fn property(properties: Seq<(String, String)>, key: Seq<char>) -> Option<Seq<char>>
    decreases properties.len(),
{
    if properties.len() == 0 {
        None
    } else if properties[0].0@ == key {
        Some(properties[0].1@)
    } else {
        property(properties.drop_first(), key)
    }
}

/// Looks a property up.
fn find_property<'a>(properties: &'a Vec<(String, String)>, key: &str) -> (r: Option<&'a str>)
    ensures
        match r {
            Some(value) => property(properties@, key@) == Some(value@),
            None => property(properties@, key@) is None,
        },
{
    let mut i: usize = 0;
    assert(properties@.skip(0) =~= properties@);
    while i < properties.len()
        invariant
            i <= properties@.len(),
            property(properties@, key@) == property(properties@.skip(i as int), key@),
        decreases properties@.len() - i,
    {
        assert(properties@.skip(i as int)[0] == properties@[i as int]);
        assert(properties@.skip(i as int).drop_first() =~= properties@.skip(i + 1));
        if same_text(properties[i].0.as_str(), key) {
            return Some(properties[i].1.as_str());
        }
        i += 1;
    }
    None
}

/// Whether an identifier can be cut behind its eighth byte.
pub open spec fn cuts_at_eight(id: Seq<char>) -> bool {
    vstd::utf8::is_char_boundary(vstd::utf8::encode_utf8(id), 8)
}

/// The name of a service's host: that of the machine, or the first eight bytes of
/// the device id on a machine that has none.
pub open spec fn host_label(device_id: Seq<char>, host: Option<Seq<char>>) -> Seq<char> {
    match host {
        Some(name) => name,
        None => vstd::utf8::decode_utf8(vstd::utf8::encode_utf8(device_id).take(8)),
    }
}

/// Whether `r` announces the node with the given id and name, under the given host label.
pub open spec fn announces(
    r: Registration,
    device_id: Seq<char>,
    device_name: Seq<char>,
    label: Seq<char>,
    port: u16,
) -> bool {
    &&& r.instance_name@ == "clipmesh-"@ + crate::websocket::short_form(device_id)
    &&& r.host@ == label + ".local."@
    &&& r.port == port
    &&& r.fullname@ == r.instance_name@ + "."@ + SERVICE_TYPE@
    &&& r.txt@.len() == 2
    &&& r.txt@[0].0@ == "device_id"@
    &&& r.txt@[0].1@ == device_id
    &&& r.txt@[1].0@ == "device_name"@
    &&& r.txt@[1].1@ == device_name
}

/// A property is found by its name: the first that bears the name, and none if and only
/// if none bears it.
pub proof fn a_property_is_found_by_its_name(properties: Seq<(String, String)>, key: Seq<char>)
    ensures
        match property(properties, key) {
            Some(value) => exists|i: int|
                0 <= i < properties.len() && (#[trigger] properties[i]).0@ == key
                    && properties[i].1@ == value && forall|j: int|
                    0 <= j < i ==> (#[trigger] properties[j]).0@ != key,
            None => forall|i: int|
                0 <= i < properties.len() ==> (#[trigger] properties[i]).0@ != key,
        },
    decreases properties.len(),
{
    if properties.len() > 0 && properties[0].0@ != key {
        let rest = properties.drop_first();
        a_property_is_found_by_its_name(rest, key);
        match property(rest, key) {
            Some(value) => {
                let i = choose|i: int|
                    0 <= i < rest.len() && (#[trigger] rest[i]).0@ == key && rest[i].1@ == value
                        && forall|j: int| 0 <= j < i ==> (#[trigger] rest[j]).0@ != key;
                assert(properties[i + 1] == rest[i]);
                assert forall|j: int| 0 <= j < i + 1 implies (#[trigger] properties[j]).0@
                    != key by {
                    if j > 0 {
                        assert(properties[j] == rest[j - 1]);
                    }
                }
            },
            None => {
                assert forall|i: int| 0 <= i < properties.len() implies (
                #[trigger] properties[i]).0@ != key by {
                    if i > 0 {
                        assert(properties[i] == rest[i - 1]);
                    }
                }
            },
        }
    } else if properties.len() > 0 {
        assert(properties[0].0@ == key);
    }
}

/// An announcement says who the node is and where it listens.
pub proof fn an_announcement_says_who_and_where(
    r: Registration,
    device_id: Seq<char>,
    device_name: Seq<char>,
    label: Seq<char>,
    port: u16,
)
    requires
        announces(r, device_id, device_name, label, port),
    ensures
        r.port == port,
        property(r.txt@, "device_id"@) == Some(device_id),
        property(r.txt@, "device_name"@) == Some(device_name),
        r.host@ == label + ".local."@,
        exists|short: Seq<char>|
            {
                &&& r.instance_name@ == "clipmesh-"@ + short
                &&& #[trigger] short.is_prefix_of(device_id)
                &&& short.len() == if device_id.len() <= 8 {
                    device_id.len()
                } else {
                    8
                }
            },
        r.fullname@ == r.instance_name@ + "."@ + "_clipmesh._tcp.local."@,
{
    reveal_strlit("device_id");
    reveal_strlit("device_name");
    assert("device_id"@.len() != "device_name"@.len());
    assert(r.txt@.drop_first()[0] == r.txt@[1]);
    reveal_with_fuel(property, 3);
    crate::websocket::a_short_form_is_the_beginning(device_id);
    let short = crate::websocket::short_form(device_id);
    assert(short.is_prefix_of(device_id));
}

/// A node that is found is the one that the service names, another than this node, at the
/// address and the port of the service; a service that names another node and has an IPv4
/// address is always found.
pub proof fn a_found_node_is_who_and_where_the_service_says(
    our_id: Seq<char>,
    service: ResolvedService,
    r: Resolution,
)
    requires
        resolves_to(our_id, service, r),
    ensures
        r matches Resolution::Found(peer) ==> {
            &&& property(service.properties@, "device_id"@) == Some(peer.device_id@)
            &&& peer.device_id@ != our_id
            &&& peer.device_id@.len() > 0
            &&& service.address == Some(Address::V4(peer.ip))
            &&& peer.port == service.port
            &&& property(service.properties@, "device_name"@) is Some ==> property(
                service.properties@,
                "device_name"@,
            ) == Some(peer.device_name@)
            &&& property(service.properties@, "device_name"@) is None ==> peer.device_name@
                == "Unknown"@
        },
        r is Found <==> {
            &&& property(service.properties@, "device_id"@) matches Some(id) && id != our_id
                && id.len() > 0
            &&& service.address matches Some(Address::V4(_))
        },
{
}

/// The label of a machine is its name, or the first eight bytes of the device id.
pub(crate) proof fn a_label_is_what_the_machine_says(device_id: Seq<char>, label: Seq<char>)
    requires
        label_of_machine(device_id, label),
    ensures
        exists|host: Option<String>| #[trigger]
            call_ensures(host_name, (), host) && match host {
                Some(name) => label == name@,
                None => label == vstd::utf8::decode_utf8(vstd::utf8::encode_utf8(device_id).take(8)),
            },
{
}

/// A machine without a name is one of which the system gave none.
pub(crate) proof fn a_nameless_machine_has_no_name()
    requires
        machine_is_nameless(),
    ensures
        call_ensures(host_name, (), None::<String>),
{
}

/// Whether `label` is the host label of a device on a machine called what the system
/// says.
pub closed spec fn label_of_machine(device_id: Seq<char>, label: Seq<char>) -> bool {
    exists|host: Option<String>| #[trigger]
        call_ensures(host_name, (), host) && label == host_label(
            device_id,
            crate::text::optional_text(host),
        )
}

/// Whether the system says that the machine has no name.
pub closed spec fn machine_is_nameless() -> bool {
    call_ensures(host_name, (), None::<String>)
}

/// Whether `r` announces the node with the given id and name, under the label of
/// this machine.
pub open spec fn announces_on_this_machine(
    r: Registration,
    device_id: Seq<char>,
    device_name: Seq<char>,
    port: u16,
) -> bool {
    exists|label: Seq<char>| #[trigger]
        announces(r, device_id, device_name, label, port) && label_of_machine(device_id, label)
}

/// Whether `r` is what a node with the id `our_id` makes of a resolved service.
pub open spec fn resolves_to(our_id: Seq<char>, service: ResolvedService, r: Resolution) -> bool {
    match property(service.properties@, "device_id"@) {
        None => r is Ignored,
        Some(id) => if id == our_id || id.len() == 0 {
            r is Ignored
        } else {
            match service.address {
                Some(Address::V4(ip)) => {
                    &&& r matches Resolution::Found(peer)
                    &&& peer.device_id@ == id
                    &&& peer.device_name@ == match property(
                        service.properties@,
                        "device_name"@,
                    ) {
                        Some(name) => name,
                        None => "Unknown"@,
                    }
                    &&& peer.ip == ip
                    &&& peer.port == service.port
                },
                _ => r is NoIpv4,
            }
        },
    }
}

/// A node that announces itself is found by every other node that resolves its
/// service to an IPv4 address, in whichever order the TXT record arrives, and is
/// ignored by itself.
pub proof fn announced_node_is_found(
    registration: Registration,
    device_id: Seq<char>,
    device_name: Seq<char>,
    label: Seq<char>,
    service: ResolvedService,
    ip: [u8; 4],
    our_id: Seq<char>,
    r: Resolution,
)
    requires
        announces(registration, device_id, device_name, label, service.port),
        service.properties@ == registration.txt@ || service.properties@
            == registration.txt@.reverse(),
        service.address == Some(Address::V4(ip)),
        device_id.len() > 0,
        resolves_to(our_id, service, r),
    ensures
        our_id == device_id ==> r is Ignored,
        our_id != device_id ==> {
            &&& r matches Resolution::Found(peer)
            &&& peer.device_id@ == device_id
            &&& peer.device_name@ == device_name
            &&& peer.ip == ip
            &&& peer.port == service.port
        },
{
    reveal_strlit("device_id");
    reveal_strlit("device_name");
    assert("device_id"@.len() != "device_name"@.len());
    let p = service.properties@;
    assert(p.len() == 2);
    assert(p.drop_first()[0] == p[1]);
    reveal_with_fuel(property, 3);
}

/// What is asked of the daemon when a node stops that has announced the service with
/// the given full name, or none if that is empty.
pub open spec fn shutdown_calls(fullname: Seq<char>) -> Seq<DaemonCallModel> {
    let rest = seq![
        DaemonCallModel::StopBrowse(SERVICE_TYPE@),
        DaemonCallModel::Shutdown,
    ];
    if fullname.len() > 0 {
        seq![DaemonCallModel::Unregister(fullname)] + rest
    } else {
        rest
    }
}

/// The full name that a new manager keeps after services were accepted for
/// announcing, one after the other.
pub open spec fn fullname_after(history: Seq<Registration>) -> Seq<char> {
    if history.len() == 0 {
        Seq::empty()
    } else {
        history.last().fullname@
    }
}

/// A node that stops withdraws the service that was accepted last, and withdraws
/// none if and only if there was none; then it stops browsing, then the daemon.
pub proof fn shutdown_withdraws_the_latest_service(
    history: Seq<Registration>,
    device_id: Seq<char>,
    device_name: Seq<char>,
    label: Seq<char>,
    port: u16,
)
    requires
        history.len() > 0 ==> announces(history.last(), device_id, device_name, label, port),
    ensures
        history.len() == 0 ==> shutdown_calls(fullname_after(history)) == seq![
            DaemonCallModel::StopBrowse(SERVICE_TYPE@),
            DaemonCallModel::Shutdown,
        ],
        history.len() > 0 ==> shutdown_calls(fullname_after(history)) == seq![
            DaemonCallModel::Unregister(
                "clipmesh-"@ + crate::websocket::short_form(device_id) + "."@ + SERVICE_TYPE@,
            ),
            DaemonCallModel::StopBrowse(SERVICE_TYPE@),
            DaemonCallModel::Shutdown,
        ],
{
    reveal_strlit("clipmesh-");
    if history.len() > 0 {
        assert(history.last().fullname@.len() > 0);
        assert(shutdown_calls(fullname_after(history)) =~= seq![
            DaemonCallModel::Unregister(history.last().fullname@),
            DaemonCallModel::StopBrowse(SERVICE_TYPE@),
            DaemonCallModel::Shutdown,
        ]);
    }
}

impl DiscoveryManager {
    /// The id under which this node was announced; empty before.
    pub closed spec fn our_device_id(self) -> Seq<char> {
        self.our_device_id@
    }

    /// The full name of the announced service; empty before.
    pub closed spec fn instance_fullname(self) -> Seq<char> {
        self.instance_fullname@
    }

    /// A manager that has announced nothing.
    pub fn new() -> (m: Self)
        ensures
            m.our_device_id().len() == 0,
            m.instance_fullname().len() == 0,
    {
        DiscoveryManager { our_device_id: String::new(), instance_fullname: String::new() }
    }

    /// Makes the service to announce, on a machine with the given host name. A
    /// machine without one takes the first eight bytes of the device id in its place.
    pub fn register_as(
        &mut self,
        device_id: &str,
        device_name: &str,
        host: Option<String>,
        port: u16,
    ) -> (r: Registration)
        requires
            host is None ==> cuts_at_eight(device_id@),
        ensures
            announces(
                r,
                device_id@,
                device_name@,
                host_label(device_id@, crate::text::optional_text(host)),
                port,
            ),
            r.port == port,
            r.instance_name@ == "clipmesh-"@ + if device_id@.len() <= 8 {
                device_id@
            } else {
                device_id@.take(8)
            },
            host matches Some(name) ==> r.host@ == name@ + ".local."@,
            host is None ==> r.host@ == vstd::utf8::decode_utf8(
                vstd::utf8::encode_utf8(device_id@).take(8),
            ) + ".local."@,
            r.fullname@ == r.instance_name@ + "."@ + "_clipmesh._tcp.local."@,
            r.txt@.len() == 2,
            r.txt@[0].0@ == "device_id"@ && r.txt@[0].1@ == device_id@,
            r.txt@[1].0@ == "device_name"@ && r.txt@[1].1@ == device_name@,
            final(self).our_device_id() == device_id@,
            final(self).instance_fullname() == old(self).instance_fullname(),
    {
        self.our_device_id = device_id.to_owned();
        let mut host: String = match host {
            Some(name) => name,
            None => {
                let (label, _) = device_id.split_at(8);
                proof {
                    vstd::utf8::encode_utf8_decode_utf8(label@);
                    assert(vstd::utf8::encode_utf8(label@) =~= vstd::utf8::encode_utf8(
                        device_id@,
                    ).take(8));
                }
                label.to_owned()
            },
        };
        host.append(".local.");
        let mut instance_name: String = "clipmesh-".to_owned();
        instance_name.append(short_id(device_id));
        let mut txt: Vec<(String, String)> = Vec::new();
        txt.push(("device_id".to_owned(), device_id.to_owned()));
        txt.push(("device_name".to_owned(), device_name.to_owned()));
        let mut fullname: String = instance_name.clone();
        fullname.append(".");
        fullname.append(SERVICE_TYPE);
        Registration { instance_name, host, port, txt, fullname }
    }

    /// Makes the service to announce on this machine. There is none where the
    /// machine has no name and the device id cannot stand in for it.
    pub fn register(&mut self, device_id: &str, device_name: &str, port: u16) -> (r: Option<
        Registration,
    >)
        ensures
            match r {
                Some(registration) => announces_on_this_machine(
                    registration,
                    device_id@,
                    device_name@,
                    port,
                ),
                None => !cuts_at_eight(device_id@) && machine_is_nameless(),
            },
            r is None ==> !vstd::utf8::is_char_boundary(vstd::utf8::encode_utf8(device_id@), 8),
            r matches Some(registration) ==> {
                &&& registration.port == port
                &&& registration.instance_name@ == "clipmesh-"@ + if device_id@.len() <= 8 {
                    device_id@
                } else {
                    device_id@.take(8)
                }
                &&& registration.fullname@ == registration.instance_name@ + "."@
                    + "_clipmesh._tcp.local."@
                &&& registration.txt@.len() == 2
                &&& registration.txt@[0].0@ == "device_id"@ && registration.txt@[0].1@ == device_id@
                &&& registration.txt@[1].0@ == "device_name"@ && registration.txt@[1].1@
                    == device_name@
            },
            final(self).our_device_id() == device_id@,
            final(self).instance_fullname() == old(self).instance_fullname(),
    {
        let host = host_name();
        if host.is_none() && !device_id.is_char_boundary(8) {
            self.our_device_id = device_id.to_owned();
            return None;
        }
        let ghost label = host_label(device_id@, crate::text::optional_text(host));
        let registration = self.register_as(device_id, device_name, host, port);
        assert(announces(registration, device_id@, device_name@, label, port));
        Some(registration)
    }

    /// Takes note that a service was accepted for announcing, so that it is
    /// withdrawn at the end.
    pub fn service_created(&mut self, registration: &Registration)
        ensures
            final(self).our_device_id() == old(self).our_device_id(),
            final(self).instance_fullname() == registration.fullname@,
    {
        self.instance_fullname = registration.fullname.clone();
    }

    /// Says which node a resolved service belongs to.
    pub fn resolve(&self, service: &ResolvedService) -> (r: Resolution)
        ensures
            resolves_to(self.our_device_id(), *service, r),
            r matches Resolution::Found(peer) ==> {
                &&& property(service.properties@, "device_id"@) == Some(peer.device_id@)
                &&& peer.device_id@ != self.our_device_id()
                &&& service.address == Some(Address::V4(peer.ip))
                &&& peer.port == service.port
                &&& peer.device_name@ == match property(service.properties@, "device_name"@) {
                    Some(name) => name,
                    None => "Unknown"@,
                }
            },
            r is Ignored <==> !(property(service.properties@, "device_id"@) matches Some(id) && id
                != self.our_device_id() && id.len() > 0),
            r is NoIpv4 ==> !(service.address matches Some(Address::V4(_))),
    {
        let device_id = match find_property(&service.properties, "device_id") {
            Some(id) => id,
            None => return Resolution::Ignored,
        };
        if same_text(device_id, self.our_device_id.as_str()) || device_id.is_empty() {
            return Resolution::Ignored;
        }
        let device_name = match find_property(&service.properties, "device_name") {
            Some(name) => name,
            None => "Unknown",
        };
        match service.address {
            Some(Address::V4(ip)) => Resolution::Found(
                DiscoveredPeer {
                    device_id: device_id.to_owned(),
                    device_name: device_name.to_owned(),
                    ip,
                    port: service.port,
                },
            ),
            _ => Resolution::NoIpv4,
        }
    }

    /// What to ask of the daemon when the node stops, in this order, whatever becomes
    /// of each: to withdraw the service that was announced last, if any, to stop
    /// browsing, and to stop.
    pub fn shutdown(&self) -> (calls: Vec<DaemonCall>)
        ensures
            calls@.map_values(|c: DaemonCall| c@) == shutdown_calls(self.instance_fullname()),
            self.instance_fullname().len() > 0 ==> calls@.len() == 3 && (
            calls@[0] matches DaemonCall::Unregister(name) && name@ == self.instance_fullname()),
            self.instance_fullname().len() == 0 ==> calls@.len() == 2,
            calls@[calls@.len() - 2] matches DaemonCall::StopBrowse(service_type) && service_type@
                == "_clipmesh._tcp.local."@,
            calls@[calls@.len() - 1] is Shutdown,
    {
        let mut calls: Vec<DaemonCall> = Vec::new();
        if !self.instance_fullname.as_str().is_empty() {
            calls.push(DaemonCall::Unregister(self.instance_fullname.clone()));
        }
        calls.push(DaemonCall::StopBrowse(SERVICE_TYPE));
        calls.push(DaemonCall::Shutdown);
        assert(calls@.map_values(|c: DaemonCall| c@) =~= shutdown_calls(self.instance_fullname()));
        calls
    }
}

} // verus!
