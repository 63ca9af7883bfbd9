//! Starting and stopping the node's services, and what they tell the window.
use crate::config::AppConfig;
use crate::crypto::MeshCipher;
use crate::json::{text_member, Json};
use crate::p2p_server::PeerEvent;
use vstd::prelude::*;

verus! {

/// What the window is told while no key has been set.
pub const STATE_NOT_CONFIGURED: &'static str = "NotConfigured";

/// What the window is told when the node listens.
pub const STATE_LISTENING: &'static str = "Listening";

/// What the window is told when a node connects.
pub const STATE_CONNECTED: &'static str = "Connected";

/// What the tray shows once a node has connected.
pub const CONNECTED_STATUS: &'static str = "状态: 已连接 ●";

/// Whether synchronisation is paused.
#[derive(Debug)]
pub struct SyncSwitch {
    paused: bool,
}

impl SyncSwitch {
    /// Whether synchronisation is paused.
    pub closed spec fn paused(self) -> bool {
        self.paused
    }

    /// A switch that lets synchronisation go on.
    pub fn new() -> (s: Self)
        ensures
            !s.paused(),
    {
        SyncSwitch { paused: false }
    }

    /// Pauses synchronisation, or lets it go on again, and says whether it is
    /// paused now. Toggling twice leaves things as they were.
    pub fn toggle_sync(&mut self) -> (paused: bool)
        ensures
            paused == !old(self).paused(),
            final(self).paused() == paused,
    {
        self.paused = !self.paused;
        self.paused
    }

    /// Whether synchronisation is paused.
    pub fn is_paused(&self) -> (paused: bool)
        ensures
            paused == self.paused(),
    {
        self.paused
    }

    /// Whether synchronisation goes on.
    pub fn get_sync_status(&self) -> (active: bool)
        ensures
            active == !self.paused(),
    {
        !self.paused
    }
}

/// Turns down starting the services before a key has been set.
pub fn check_start(config: &AppConfig) -> (r: Result<(), String>)
    ensures
        match r {
            Ok(_) => config.encryption_key_hex@.len() > 0,
            Err(e) => config.encryption_key_hex@.len() == 0 && e@ == "请先设置加密密钥"@,
        },
{
    if !config.is_valid() {
        return Err("请先设置加密密钥".to_owned());
    }
    Ok(())
}

/// The services that are stored: the token that cancels them, and their task.
pub struct ServiceSlot<T, H> {
    token: Option<T>,
    task: Option<H>,
}

/// What is due when the services are to be started.
#[derive(Debug)]
pub enum Due<T, H> {
    /// Cancel the services that were stored, by this token.
    Cancel(T),
    /// Abort their task.
    Abort(H),
    /// Start new services, and store them.
    Start,
}

/// What a slot holds.
pub struct Stored<T, H> {
    pub token: Option<T>,
    pub task: Option<H>,
}

/// Something that happens to the services of a slot.
pub enum ServiceEvent<T, H> {
    /// New services were started and stored.
    Started(T, H),
    /// The stored token was handed out to cancel.
    Cancelled(T),
    /// The stored task was handed out to abort.
    Aborted(H),
}

/// Whether an event takes a slot from `before` to `after`. Services are started only
/// in an empty slot; a task is aborted only once its token has been handed out.
pub open spec fn slot_moves<T, H>(
    before: Stored<T, H>,
    event: ServiceEvent<T, H>,
    after: Stored<T, H>,
) -> bool {
    match event {
        ServiceEvent::Started(token, task) => {
            &&& before == (Stored { token: None::<T>, task: None::<H> })
            &&& after == (Stored { token: Some(token), task: Some(task) })
        },
        ServiceEvent::Cancelled(token) => {
            &&& before.token == Some(token)
            &&& after == (Stored { token: None::<T>, task: before.task })
        },
        ServiceEvent::Aborted(task) => {
            &&& before == (Stored { token: None::<T>, task: Some(task) })
            &&& after == (Stored { token: None::<T>, task: None::<H> })
        },
    }
}

/// How many services of a history have been started and not cancelled.
pub open spec fn uncancelled<T, H>(events: Seq<ServiceEvent<T, H>>) -> int
    decreases events.len(),
{
    if events.len() == 0 {
        0
    } else {
        uncancelled(events.drop_last()) + match events.last() {
            ServiceEvent::Started(_, _) => 1int,
            ServiceEvent::Cancelled(_) => -1int,
            ServiceEvent::Aborted(_) => 0int,
        }
    }
}

/// How many services of a history have been started and not aborted.
pub open spec fn unaborted<T, H>(events: Seq<ServiceEvent<T, H>>) -> int
    decreases events.len(),
{
    if events.len() == 0 {
        0
    } else {
        unaborted(events.drop_last()) + match events.last() {
            ServiceEvent::Started(_, _) => 1int,
            ServiceEvent::Cancelled(_) => 0int,
            ServiceEvent::Aborted(_) => -1int,
        }
    }
}

/// However often the services are started, at most one of them is neither cancelled
/// nor aborted, and that is the one in the slot; whenever new ones are started, all
/// older ones have been cancelled and aborted before.
pub proof fn at_most_one_service_is_live<T, H>(
    slots: Seq<Stored<T, H>>,
    events: Seq<ServiceEvent<T, H>>,
)
    requires
        slots.len() == events.len() + 1,
        slots[0] == (Stored { token: None::<T>, task: None::<H> }),
        forall|i: int|
            0 <= i < events.len() ==> slot_moves(slots[i], #[trigger] events[i], slots[i + 1]),
    ensures
        uncancelled(events) == if slots.last().token is Some {
            1int
        } else {
            0int
        },
        unaborted(events) == if slots.last().task is Some {
            1int
        } else {
            0int
        },
        events.len() > 0 && events.last() is Started ==> {
            &&& uncancelled(events.drop_last()) == 0
            &&& unaborted(events.drop_last()) == 0
        },
    decreases events.len(),
{
    if events.len() > 0 {
        let head = events.drop_last();
        let slots_before = slots.drop_last();
        assert forall|i: int| 0 <= i < head.len() implies slot_moves(
            slots_before[i],
            #[trigger] head[i],
            slots_before[i + 1],
        ) by {
            assert(head[i] == events[i]);
        }
        at_most_one_service_is_live(slots_before, head);
        let n = events.len() - 1;
        assert(slot_moves(slots[n], events[n], slots[n + 1]));
        assert(slots_before.last() == slots[n]);
    }
}

impl<T, H> ServiceSlot<T, H> {
    /// What the slot holds.
    pub closed spec fn stored(self) -> Stored<T, H> {
        Stored { token: self.token, task: self.task }
    }

    /// No services.
    pub fn new() -> (s: Self)
        ensures
            s.stored() == (Stored { token: None::<T>, task: None::<H> }),
    {
        ServiceSlot { token: None, task: None }
    }

    /// Says what is due when the services are to be started with a configuration.
    /// Without a key nothing is, and what is stored stays. Otherwise whatever is
    /// stored is handed out first, the token and then the task; new services are due
    /// once nothing is left.
    pub fn start_due(&mut self, config: &AppConfig) -> (r: Result<Due<T, H>, String>)
        ensures
            match r {
                Err(e) => {
                    &&& config.encryption_key_hex@.len() == 0
                    &&& e@ == "请先设置加密密钥"@
                    &&& final(self).stored() == old(self).stored()
                },
                Ok(due) => config.encryption_key_hex@.len() > 0 && match due {
                    Due::Cancel(token) => slot_moves(
                        old(self).stored(),
                        ServiceEvent::Cancelled(token),
                        final(self).stored(),
                    ),
                    Due::Abort(task) => slot_moves(
                        old(self).stored(),
                        ServiceEvent::Aborted(task),
                        final(self).stored(),
                    ),
                    Due::Start => {
                        &&& old(self).stored() == (Stored { token: None::<T>, task: None::<H> })
                        &&& final(self).stored() == old(self).stored()
                    },
                },
            },
    {
        check_start(config)?;
        match self.token.take() {
            Some(token) => Ok(Due::Cancel(token)),
            None => match self.task.take() {
                Some(task) => Ok(Due::Abort(task)),
                None => Ok(Due::Start),
            },
        }
    }

    /// Stores services that were started. Nothing may be stored, so that no service
    /// is lost without having been cancelled.
    pub fn install(&mut self, token: T, task: H)
        requires
            old(self).stored() == (Stored { token: None::<T>, task: None::<H> }),
        ensures
            slot_moves(old(self).stored(), ServiceEvent::Started(token, task), final(self).stored()),
    {
        self.token = Some(token);
        self.task = Some(task);
    }
}

/// How far the services have been started.
#[derive(Debug, Clone, Copy, PartialEq, Eq, Structural)]
pub enum StartStage {
    /// Bind the server to this port.
    Bind { port: u16 },
    /// Create the mDNS daemon; the server listens on this port.
    CreateDiscovery { port: u16 },
    /// Announce the server on this port.
    Register { port: u16 },
    /// Browse for other nodes.
    Browse { port: u16 },
    /// Everything runs; the server listens on this port.
    Serving { port: u16 },
    /// A step failed; nothing more is started.
    Aborted,
}

/// What became of a step.
#[derive(Debug, Clone, Copy, PartialEq, Eq, Structural)]
pub enum StepOutcome {
    /// The server was bound to this port.
    Bound(u16),
    Done,
    Failed,
}

/// The stage after a step.
pub open spec fn next_stage(stage: StartStage, outcome: StepOutcome) -> StartStage {
    match (stage, outcome) {
        (StartStage::Bind { .. }, StepOutcome::Bound(port)) => StartStage::CreateDiscovery { port },
        (StartStage::CreateDiscovery { port }, StepOutcome::Done) => StartStage::Register { port },
        (StartStage::Register { port }, StepOutcome::Done) => StartStage::Browse { port },
        (StartStage::Browse { port }, StepOutcome::Done) => StartStage::Serving { port },
        (StartStage::Serving { port }, _) => StartStage::Serving { port },
        _ => StartStage::Aborted,
    }
}

/// The stage after a number of steps.
pub open spec fn stage_after(stage: StartStage, outcomes: Seq<StepOutcome>) -> StartStage
    decreases outcomes.len(),
{
    if outcomes.len() == 0 {
        stage
    } else {
        stage_after(next_stage(stage, outcomes[0]), outcomes.drop_first())
    }
}

/// The services run if and only if all four steps succeed, and then on the port
/// that the server was bound to, whichever port was asked for.
pub proof fn serving_needs_every_step(port: u16, outcomes: Seq<StepOutcome>)
    requires
        outcomes.len() == 4,
    ensures
        stage_after(StartStage::Bind { port }, outcomes) is Serving <==> {
            &&& outcomes[0] is Bound
            &&& outcomes[1] is Done
            &&& outcomes[2] is Done
            &&& outcomes[3] is Done
        },
        stage_after(StartStage::Bind { port }, outcomes) matches StartStage::Serving { port: p }
            ==> outcomes[0] == StepOutcome::Bound(p),
        !(stage_after(StartStage::Bind { port }, outcomes) is Serving) ==> stage_after(
            StartStage::Bind { port },
            outcomes,
        ) is Aborted,
{
    reveal_with_fuel(stage_after, 5);
    let a = outcomes.drop_first();
    let b = a.drop_first();
    let c = b.drop_first();
    assert(a[0] == outcomes[1] && b[0] == outcomes[2] && c[0] == outcomes[3]);
    assert(c.drop_first().len() == 0);
}

/// Begins to start the services: makes the cipher from the configured key and says
/// which port to bind. Without a usable key nothing is started.
pub fn begin_start(config: &AppConfig) -> (r: Result<(MeshCipher, StartStage), String>)
    ensures
        match r {
            Ok((cipher, stage)) => {
                &&& crate::text::is_hex(config.encryption_key_hex@)
                &&& config.encryption_key_hex@.len() == 2 * crate::crypto::KEY_SIZE
                &&& cipher.key() == crate::text::hex_bytes(config.encryption_key_hex@)
                &&& stage == (StartStage::Bind { port: config.p2p_port })
            },
            Err(e) => if crate::text::is_hex(config.encryption_key_hex@) {
                &&& config.encryption_key_hex@.len() != 2 * crate::crypto::KEY_SIZE
                &&& e@ == crate::crypto::key_size_error(config.encryption_key_hex@.len() / 2)
            } else {
                e@ == crate::crypto::hex_key_error(config.encryption_key_hex@)
            },
        },
        r is Ok <==> crate::text::is_hex(config.encryption_key_hex@)
            && config.encryption_key_hex@.len() == 64,
{
    let cipher = MeshCipher::from_hex_key(config.encryption_key_hex.as_str())?;
    Ok((cipher, StartStage::Bind { port: config.p2p_port }))
}

/// Goes on to the next stage.
pub fn advance_start(stage: StartStage, outcome: StepOutcome) -> (r: StartStage)
    ensures
        r == next_stage(stage, outcome),
        outcome is Failed && !(stage is Serving) ==> r is Aborted,
        stage is Bind ==> (outcome matches StepOutcome::Bound(port) ==> r
            == StartStage::CreateDiscovery { port }),
        outcome is Done ==> match stage {
            StartStage::CreateDiscovery { port } => r == (StartStage::Register { port }),
            StartStage::Register { port } => r == (StartStage::Browse { port }),
            StartStage::Browse { port } => r == (StartStage::Serving { port }),
            _ => true,
        },
{
    match (stage, outcome) {
        (StartStage::Bind { .. }, StepOutcome::Bound(port)) => StartStage::CreateDiscovery { port },
        (StartStage::CreateDiscovery { port }, StepOutcome::Done) => StartStage::Register { port },
        (StartStage::Register { port }, StepOutcome::Done) => StartStage::Browse { port },
        (StartStage::Browse { port }, StepOutcome::Done) => StartStage::Serving { port },
        (StartStage::Serving { port }, _) => StartStage::Serving { port },
        _ => StartStage::Aborted,
    }
}

/// What the window and the tray are told about a node that came or went.
#[derive(Debug)]
pub struct PeerNotice {
    /// The state to tell the window, if it changes.
    pub state: Option<&'static str>,
    /// The event for the window.
    pub event: Json,
    /// The state to show in the tray, if it changes.
    pub tray: Option<&'static str>,
}

/// Whether `n` is what is told about an event.
pub open spec fn tells_of(n: PeerNotice, event: PeerEvent) -> bool {
    match event {
        PeerEvent::Connected { device_id, device_name, .. } => {
            &&& n.state matches Some(state) && state@ == STATE_CONNECTED@
            &&& n.tray matches Some(status) && status@ == CONNECTED_STATUS@
            &&& crate::json::is_text_object(
                n.event,
                seq![
                    ("type"@, "connected"@),
                    ("device_id"@, device_id@),
                    ("device_name"@, device_name@),
                ],
            )
        },
        PeerEvent::Disconnected { device_id } => {
            &&& n.state is None
            &&& n.tray is None
            &&& crate::json::is_text_object(
                n.event,
                seq![("type"@, "disconnected"@), ("device_id"@, device_id@)],
            )
        },
    }
}

/// Makes what the window and the tray are told about a node that came or went.
pub fn peer_notice(event: &PeerEvent) -> (n: PeerNotice)
    ensures
        tells_of(n, *event),
        n.event is Object,
        match *event {
            PeerEvent::Connected { device_id, device_name, .. } => {
                &&& n.state matches Some(state) && state@ == "Connected"@
                &&& n.tray matches Some(status) && status@ == "状态: 已连接 ●"@
                &&& n.event->Object_0@.len() == 3
                &&& crate::json::holds_text(n.event->Object_0@, "type"@, "connected"@)
                &&& crate::json::holds_text(n.event->Object_0@, "device_id"@, device_id@)
                &&& crate::json::holds_text(n.event->Object_0@, "device_name"@, device_name@)
            },
            PeerEvent::Disconnected { device_id } => {
                &&& n.state is None
                &&& n.tray is None
                &&& n.event->Object_0@.len() == 2
                &&& crate::json::holds_text(n.event->Object_0@, "type"@, "disconnected"@)
                &&& crate::json::holds_text(n.event->Object_0@, "device_id"@, device_id@)
            },
        },
{
    let mut members: Vec<(String, Json)> = Vec::new();
    match event {
        PeerEvent::Connected { device_id, device_name, .. } => {
            members.push(text_member("type", "connected"));
            members.push(text_member("device_id", device_id.as_str()));
            members.push(text_member("device_name", device_name.as_str()));
            assert(members@[0].0@ == "type"@);
            assert(members@[1].0@ == "device_id"@);
            assert(members@[2].0@ == "device_name"@);
            PeerNotice {
                state: Some(STATE_CONNECTED),
                event: Json::Object(members),
                tray: Some(CONNECTED_STATUS),
            }
        },
        PeerEvent::Disconnected { device_id } => {
            members.push(text_member("type", "disconnected"));
            members.push(text_member("device_id", device_id.as_str()));
            assert(members@[0].0@ == "type"@);
            assert(members@[1].0@ == "device_id"@);
            PeerNotice { state: None, event: Json::Object(members), tray: None }
        },
    }
}

} // verus!
