//! One connection to another node, step by step, from either side.
//!
//! A node that was dialled is told who is calling; a node that called introduces
//! itself with its first message. Then the node at the other end is entered into
//! the table of connected nodes, unless it is there already, and that is announced.
//! Both sides read and write until one of the two stops; the node leaves the table,
//! and that is announced too.
use crate::discovery::DiscoveredPeer;
use crate::p2p_client::{plan_dial, DialPlan};
use crate::p2p_server::{Arrival, PeerEvent, MAX_MSG_SIZE};
use crate::peers::PeerTable;
use crate::websocket::{short_id, MeshMessage};
use vstd::prelude::*;

verus! {

/// What is due on a connection.
#[derive(Debug, Clone, Copy, PartialEq, Eq, Structural)]
pub enum Step {
    /// Wait for the first message of a node that called.
    AwaitHello,
    /// Parse that message.
    ParseHello,
    /// Dial the other node.
    Dial,
    /// Introduce this node.
    SendHello,
    /// Enter the other node into the table.
    Enter,
    /// Announce that it is connected.
    Announce,
    /// Pass its first message on.
    Forward,
    /// Read and write until one of the two stops.
    Serve,
    /// Take the other node out of the table.
    Leave,
    /// Announce that it is gone.
    AnnounceGone,
    /// Nothing; the connection is at its end.
    Done,
}

/// A connection to another node, between two steps.
#[derive(Debug)]
pub struct Connection {
    step: Step,
    dialled: bool,
    text: String,
    peer_id: String,
    peer_name: String,
    hello: Option<MeshMessage>,
}

/// How far a connection has come.
#[verifier::ext_equal]
pub struct Progress {
    pub step: Step,
    /// Whether this node dialled.
    pub dialled: bool,
    /// The id of the node at the other end; empty until it is known.
    pub peer_id: Seq<char>,
}

/// The step after one that needs nothing but success or failure.
pub open spec fn next_step(step: Step, dialled: bool, ok: bool) -> Step {
    match step {
        Step::Dial => if ok {
            Step::SendHello
        } else {
            Step::Done
        },
        Step::SendHello => if ok {
            Step::Enter
        } else {
            Step::Done
        },
        Step::Announce => if dialled {
            Step::Serve
        } else {
            Step::Forward
        },
        Step::Forward => Step::Serve,
        Step::Serve => Step::Leave,
        Step::AnnounceGone => Step::Done,
        _ => step,
    }
}

/// Whether the node at the other end is in the table before a step.
pub open spec fn in_table(step: Step) -> bool {
    match step {
        Step::Announce | Step::Forward | Step::Serve | Step::Leave => true,
        _ => false,
    }
}

/// An upper bound on the steps still to come.
pub open spec fn steps_left(step: Step) -> nat {
    match step {
        Step::AwaitHello | Step::Dial => 8,
        Step::ParseHello | Step::SendHello => 7,
        Step::Enter => 6,
        Step::Announce => 5,
        Step::Forward => 4,
        Step::Serve => 3,
        Step::Leave => 2,
        Step::AnnounceGone => 1,
        Step::Done => 0,
    }
}

/// Whether a connection may go from `c` to `d` in one step while the ids in the table
/// go from `before` to `after`.
pub open spec fn moves(
    c: Progress,
    d: Progress,
    before: Set<Seq<char>>,
    after: Set<Seq<char>>,
) -> bool {
    &&& d.dialled == c.dialled
    &&& match c.step {
        Step::AwaitHello => {
            &&& d.step == Step::ParseHello || d.step == Step::Done
            &&& after == before
        },
        Step::ParseHello => {
            &&& d.step == Step::Enter || d.step == Step::Done
            &&& after == before
        },
        Step::Enter => {
            &&& d.peer_id == c.peer_id
            &&& if before.contains(c.peer_id) {
                d.step == Step::Done && after == before
            } else {
                d.step == Step::Announce && after == before.insert(c.peer_id)
            }
        },
        Step::Leave => {
            &&& d.peer_id == c.peer_id
            &&& d.step == Step::AnnounceGone
            &&& after == before.remove(c.peer_id)
        },
        Step::Done => false,
        _ => {
            &&& d.peer_id == c.peer_id
            &&& d.step == next_step(c.step, c.dialled, true) || d.step == next_step(
                c.step,
                c.dialled,
                false,
            )
            &&& after == before
        },
    }
}

/// Whether the connections of a node and the ids in its table agree: the ids are
/// those of the connections that have entered and not left, and no two of those
/// lead to the same node.
pub open spec fn in_order(connections: Seq<Progress>, ids: Set<Seq<char>>) -> bool {
    &&& forall|i: int|
        0 <= i < connections.len() && in_table(connections[i].step) ==> ids.contains(
            (#[trigger] connections[i]).peer_id,
        )
    &&& forall|i: int, j: int|
        0 <= i < j < connections.len() && in_table(connections[i].step) && in_table(
            connections[j].step,
        ) ==> (#[trigger] connections[i]).peer_id != (#[trigger] connections[j]).peer_id
    &&& forall|id: Seq<char>| #[trigger]
        ids.contains(id) ==> exists|i: int|
            0 <= i < connections.len() && in_table(connections[i].step) && (
            #[trigger] connections[i]).peer_id == id
}

/// However many connections a node has and in whatever order they take their
/// steps, its table holds just the nodes that they have entered, and at most one
/// connection to each.
pub proof fn steps_keep_connections_in_order(
    connections: Seq<Progress>,
    before: Set<Seq<char>>,
    after: Set<Seq<char>>,
    k: int,
    next: Progress,
)
    requires
        in_order(connections, before),
        0 <= k < connections.len(),
        moves(connections[k], next, before, after),
    ensures
        in_order(connections.update(k, next), after),
{
    let c = connections[k];
    let updated = connections.update(k, next);
    assert forall|i: int|
        0 <= i < updated.len() && in_table(updated[i].step) implies after.contains(
        (#[trigger] updated[i]).peer_id,
    ) by {
        if i != k {
            assert(updated[i] == connections[i]);
            if c.step == Step::Leave {
                assert(in_table(c.step));
                if i < k {
                    assert(connections[i].peer_id != connections[k].peer_id);
                } else {
                    assert(connections[k].peer_id != connections[i].peer_id);
                }
            }
        }
    }
    assert forall|i: int, j: int|
        0 <= i < j < updated.len() && in_table(updated[i].step) && in_table(
            updated[j].step,
        ) implies (#[trigger] updated[i]).peer_id != (#[trigger] updated[j]).peer_id by {
        if i == k {
            assert(updated[j] == connections[j]);
            assert(before.contains(connections[j].peer_id));
            if in_table(c.step) {
                assert(connections[k].peer_id != connections[j].peer_id);
            }
        } else if j == k {
            assert(updated[i] == connections[i]);
            assert(before.contains(connections[i].peer_id));
            if in_table(c.step) {
                assert(connections[i].peer_id != connections[k].peer_id);
            }
        } else {
            assert(connections[i].peer_id != connections[j].peer_id);
        }
    }
    assert forall|id: Seq<char>| #[trigger] after.contains(id) implies exists|i: int|
        0 <= i < updated.len() && in_table(updated[i].step) && (#[trigger] updated[i]).peer_id
            == id by {
        if before.contains(id) {
            let i = choose|i: int|
                0 <= i < connections.len() && in_table(connections[i].step) && (
                #[trigger] connections[i]).peer_id == id;
            if i == k {
                assert(updated[k].peer_id == id && in_table(updated[k].step));
            } else {
                assert(updated[i] == connections[i]);
            }
        } else {
            assert(updated[k].peer_id == id);
        }
    }
}

/// Every step follows from what came before it, and only entering and leaving change the
/// table: a node is announced only once it has been entered where it was not before,
/// its first message is passed on if and only if it called, it is served after that
/// until it is taken out, and it is announced as gone only once it has been taken out.
pub proof fn every_step_follows_its_cause(
    c: Progress,
    d: Progress,
    before: Set<Seq<char>>,
    after: Set<Seq<char>>,
)
    requires
        moves(c, d, before, after),
    ensures
        d.dialled == c.dialled,
        c.step != Step::AwaitHello && c.step != Step::ParseHello ==> d.peer_id == c.peer_id,
        c.step != Step::Enter && c.step != Step::Leave ==> after == before,
        d.step == Step::ParseHello ==> c.step == Step::AwaitHello,
        d.step == Step::SendHello ==> c.step == Step::Dial,
        d.step == Step::Enter ==> c.step == Step::ParseHello || c.step == Step::SendHello,
        d.step == Step::Announce ==> c.step == Step::Enter && !before.contains(c.peer_id) && after
            == before.insert(c.peer_id),
        d.step == Step::Forward <==> c.step == Step::Announce && !c.dialled,
        d.step == Step::Serve <==> c.step == Step::Forward || c.step == Step::Announce && c.dialled,
        d.step == Step::Leave <==> c.step == Step::Serve,
        d.step == Step::AnnounceGone <==> c.step == Step::Leave,
        c.step == Step::Leave ==> after == before.remove(c.peer_id),
        c.step == Step::AnnounceGone ==> d.step == Step::Done,
        c.step == Step::Enter && before.contains(c.peer_id) ==> d.step == Step::Done,
        c.step != Step::Done,
        d.step != Step::AwaitHello && d.step != Step::Dial,
{
}

/// A node without connections is in order, and a connection that begins, or is at
/// its end, changes nothing about that.
pub proof fn beginning_keeps_connections_in_order(
    connections: Seq<Progress>,
    ids: Set<Seq<char>>,
    c: Progress,
)
    requires
        in_order(connections, ids),
        !in_table(c.step),
    ensures
        in_order(Seq::empty(), Set::empty()),
        in_order(connections.push(c), ids),
{
    let more = connections.push(c);
    assert forall|i: int| 0 <= i < more.len() && in_table(more[i].step) implies ids.contains(
        (#[trigger] more[i]).peer_id,
    ) by {
        assert(more[i] == connections[i]);
    }
    assert forall|i: int, j: int|
        0 <= i < j < more.len() && in_table(more[i].step) && in_table(more[j].step) implies (
    #[trigger] more[i]).peer_id != (#[trigger] more[j]).peer_id by {
        assert(more[i] == connections[i] && more[j] == connections[j]);
    }
    assert forall|id: Seq<char>| #[trigger] ids.contains(id) implies exists|i: int|
        0 <= i < more.len() && in_table(more[i].step) && (#[trigger] more[i]).peer_id == id by {
        let i = choose|i: int|
            0 <= i < connections.len() && in_table(connections[i].step) && (
            #[trigger] connections[i]).peer_id == id;
        assert(more[i] == connections[i]);
    }
}

/// A connection comes to its end: every step brings it nearer.
pub proof fn every_step_brings_the_end_nearer(
    c: Progress,
    d: Progress,
    before: Set<Seq<char>>,
    after: Set<Seq<char>>,
)
    requires
        moves(c, d, before, after),
    ensures
        steps_left(d.step) < steps_left(c.step),
{
}

/// A connection leaves no trace: what it enters into the table it takes out again,
/// and the table is as it was.
pub proof fn leaving_undoes_entering<S>(table: Map<Seq<char>, S>, peer_id: Seq<char>, handle: S)
    requires
        !table.dom().contains(peer_id),
    ensures
        table.insert(peer_id, handle).remove(peer_id) == table,
{
    assert(table.insert(peer_id, handle).remove(peer_id) =~= table);
}

impl Connection {
    /// How far the connection has come.
    pub closed spec fn progress(self) -> Progress {
        Progress { step: self.step, dialled: self.dialled, peer_id: self.peer_id@ }
    }

    /// The URL to dial, or the text of the first message.
    pub closed spec fn text(self) -> Seq<char> {
        self.text@
    }

    /// The name of the node at the other end; empty until it is known.
    pub closed spec fn peer_name(self) -> Seq<char> {
        self.peer_name@
    }

    /// The first message, until it has been passed on.
    pub closed spec fn hello(self) -> Option<MeshMessage> {
        self.hello
    }

    /// A connection that another node opened.
    pub fn accepted() -> (c: Self)
        ensures
            c.progress() == (Progress {
                step: Step::AwaitHello,
                dialled: false,
                peer_id: Seq::empty(),
            }),
            c.text() == Seq::<char>::empty(),
            c.peer_name() == Seq::<char>::empty(),
            c.hello() is None,
    {
        let c = Connection {
            step: Step::AwaitHello,
            dialled: false,
            text: String::new(),
            peer_id: String::new(),
            peer_name: String::new(),
            hello: None,
        };
        assert(c.peer_id@ =~= Seq::empty());
        c
    }

    /// A connection to a node that was found. It is at its end at once unless it is
    /// for this node to dial, and the other is not connected yet.
    pub fn dialling<S>(
        peer: &DiscoveredPeer,
        our_device_id: &str,
        our_device_name: &str,
        peers: &PeerTable<S>,
    ) -> (c: Self)
        ensures
            c.progress() == (Progress {
                step: if crate::p2p_client::dials(our_device_id@, peer.device_id@)
                    && !peers@.dom().contains(peer.device_id@) {
                    Step::Dial
                } else {
                    Step::Done
                },
                dialled: true,
                peer_id: peer.device_id@,
            }),
            c.peer_name() == peer.device_name@,
            c.progress().dialled,
            c.progress().peer_id == peer.device_id@,
            c.progress().step == Step::Dial <==> !peers@.dom().contains(peer.device_id@)
                && exists|k: int|
                crate::text::differ_at(
                    vstd::utf8::encode_utf8(our_device_id@),
                    vstd::utf8::encode_utf8(peer.device_id@),
                    k,
                ),
            c.progress().step == Step::Dial || c.progress().step == Step::Done,
            c.progress().step == Step::Dial ==> crate::p2p_client::names_the_node(
                c.text(),
                peer.ip,
                peer.port,
                our_device_id@,
                our_device_name@,
            ),
            c.progress().step == Step::Dial ==> c.text() == crate::p2p_client::peer_url(
                peer.ip,
                peer.port,
                our_device_id@,
                our_device_name@,
            ),
            c.hello() is None,
    {
        proof {
            crate::p2p_client::the_smaller_id_dials(our_device_id@, peer.device_id@);
        }
        let (step, text) = match plan_dial(peer, our_device_id, our_device_name, peers) {
            DialPlan::Dial(url) => (Step::Dial, url),
            _ => (Step::Done, String::new()),
        };
        Connection {
            step,
            dialled: true,
            text,
            peer_id: peer.device_id.clone(),
            peer_name: peer.device_name.clone(),
            hello: None,
        }
    }

    /// What is due.
    pub fn step(&self) -> (s: Step)
        ensures
            s == self.progress().step,
    {
        self.step
    }

    /// The URL to dial, or the text of the first message.
    pub fn pending_text(&self) -> (s: &str)
        ensures
            s@ == self.text(),
    {
        self.text.as_str()
    }

    /// The id of the node at the other end.
    pub fn peer_id(&self) -> (s: &str)
        ensures
            s@ == self.progress().peer_id,
    {
        self.peer_id.as_str()
    }

    /// Takes what came while the first message was awaited; nothing came if the
    /// time ran out. Anything but a text of at most `MAX_MSG_SIZE` bytes ends the
    /// connection.
    pub fn hello_arrived(&mut self, arrival: Option<Arrival>)
        requires
            old(self).progress().step == Step::AwaitHello,
        ensures
            final(self).progress() == (Progress {
                step: if arrival matches Some(Arrival::Text(text)) && vstd::utf8::encode_utf8(
                    text@,
                ).len() <= MAX_MSG_SIZE {
                    Step::ParseHello
                } else {
                    Step::Done
                },
                ..old(self).progress()
            }),
            final(self).text() == match arrival {
                Some(Arrival::Text(text)) => if vstd::utf8::encode_utf8(text@).len()
                    <= MAX_MSG_SIZE {
                    text@
                } else {
                    old(self).text()
                },
                _ => old(self).text(),
            },
            final(self).peer_name() == old(self).peer_name(),
            final(self).hello() == old(self).hello(),
            final(self).progress().step == Step::ParseHello <==> (
            arrival matches Some(Arrival::Text(text)) && vstd::utf8::encode_utf8(text@).len()
                <= 10_485_760),
            final(self).progress().step == Step::ParseHello || final(self).progress().step
                == Step::Done,
            forall|ids: Set<Seq<char>>| #[trigger]
                moves(old(self).progress(), final(self).progress(), ids, ids),
    {
        match arrival {
            Some(Arrival::Text(text)) => {
                if text.as_str().as_bytes().len() <= MAX_MSG_SIZE {
                    self.text = text;
                    self.step = Step::ParseHello;
                } else {
                    self.step = Step::Done;
                }
            },
            _ => {
                self.step = Step::Done;
            },
        }
    }

    /// Takes the first message, or that the text was none, which ends the
    /// connection. The message says which node is at the other end.
    pub fn hello_parsed(&mut self, message: Option<MeshMessage>)
        requires
            old(self).progress().step == Step::ParseHello,
        ensures
            match message {
                Some(m) => {
                    &&& final(self).progress() == (Progress {
                        step: Step::Enter,
                        dialled: old(self).progress().dialled,
                        peer_id: m.sender_id@,
                    })
                    &&& final(self).peer_name() == crate::p2p_server::introduced_name(m)
                    &&& final(self).peer_name() == match m.payload.text_field("device_name"@) {
                        Some(name) => name,
                        None => if m.sender_id@.len() <= 8 {
                            m.sender_id@
                        } else {
                            m.sender_id@.take(8)
                        },
                    }
                    &&& final(self).hello() == Some(m)
                },
                None => {
                    &&& final(self).progress() == (Progress {
                        step: Step::Done,
                        ..old(self).progress()
                    })
                    &&& final(self).peer_name() == old(self).peer_name()
                    &&& final(self).hello() == old(self).hello()
                },
            },
            final(self).text() == old(self).text(),
            forall|ids: Set<Seq<char>>| #[trigger]
                moves(old(self).progress(), final(self).progress(), ids, ids),
    {
        match message {
            Some(m) => {
                self.peer_name = match m.payload.get_text("device_name") {
                    Some(name) => name.to_owned(),
                    None => short_id(m.sender_id.as_str()).to_owned(),
                };
                self.peer_id = m.sender_id.clone();
                self.hello = Some(m);
                self.step = Step::Enter;
            },
            None => {
                self.step = Step::Done;
            },
        }
    }

    /// Takes how a step went that needs nothing but success or failure.
    pub fn stepped(&mut self, ok: bool)
        requires
            match old(self).progress().step {
                Step::Dial
                | Step::SendHello
                | Step::Announce
                | Step::Forward
                | Step::Serve
                | Step::AnnounceGone => true,
                _ => false,
            },
        ensures
            final(self).progress() == (Progress {
                step: next_step(old(self).progress().step, old(self).progress().dialled, ok),
                ..old(self).progress()
            }),
            final(self).text() == old(self).text(),
            final(self).peer_name() == old(self).peer_name(),
            final(self).hello() == old(self).hello(),
            final(self).progress().dialled == old(self).progress().dialled,
            final(self).progress().peer_id == old(self).progress().peer_id,
            final(self).progress().step == match old(self).progress().step {
                Step::Dial if ok => Step::SendHello,
                Step::SendHello if ok => Step::Enter,
                Step::Announce if !old(self).progress().dialled => Step::Forward,
                Step::Announce | Step::Forward => Step::Serve,
                Step::Serve => Step::Leave,
                _ => Step::Done,
            },
            forall|ids: Set<Seq<char>>| #[trigger]
                moves(old(self).progress(), final(self).progress(), ids, ids),
    {
        self.step = match self.step {
            Step::Dial => if ok {
                Step::SendHello
            } else {
                Step::Done
            },
            Step::SendHello => if ok {
                Step::Enter
            } else {
                Step::Done
            },
            Step::Announce => if self.dialled {
                Step::Serve
            } else {
                Step::Forward
            },
            Step::Forward => Step::Serve,
            Step::Serve => Step::Leave,
            Step::AnnounceGone => Step::Done,
            step => step,
        };
    }

    /// Enters the node at the other end into the table with its handle. A node that
    /// is there already keeps its entry, and this connection is at its end.
    pub fn enter<S>(&mut self, handle: S, peers: &mut PeerTable<S>)
        requires
            old(self).progress().step == Step::Enter,
        ensures
            final(self).progress() == (Progress {
                step: if old(peers)@.dom().contains(old(self).progress().peer_id) {
                    Step::Done
                } else {
                    Step::Announce
                },
                ..old(self).progress()
            }),
            final(peers)@ == if old(peers)@.dom().contains(old(self).progress().peer_id) {
                old(peers)@
            } else {
                old(peers)@.insert(old(self).progress().peer_id, handle)
            },
            forall|id: Seq<char>| #[trigger]
                old(peers)@.dom().contains(id) ==> final(peers)@.dom().contains(id)
                    && final(peers)@[id] == old(peers)@[id],
            final(self).text() == old(self).text(),
            final(self).peer_name() == old(self).peer_name(),
            final(self).hello() == old(self).hello(),
            moves(
                old(self).progress(),
                final(self).progress(),
                old(peers)@.dom(),
                final(peers)@.dom(),
            ),
    {
        let ghost before = peers@;
        if peers.try_insert(self.peer_id.as_str(), handle) {
            self.step = Step::Announce;
            assert(peers@.dom() =~= before.dom().insert(self.peer_id@));
        } else {
            self.step = Step::Done;
        }
    }

    /// Takes the node at the other end out of the table.
    pub fn leave<S>(&mut self, peers: &mut PeerTable<S>)
        requires
            old(self).progress().step == Step::Leave,
        ensures
            final(self).progress() == (Progress {
                step: Step::AnnounceGone,
                ..old(self).progress()
            }),
            final(peers)@ == old(peers)@.remove(old(self).progress().peer_id),
            final(self).text() == old(self).text(),
            final(self).peer_name() == old(self).peer_name(),
            final(self).hello() == old(self).hello(),
            moves(
                old(self).progress(),
                final(self).progress(),
                old(peers)@.dom(),
                final(peers)@.dom(),
            ),
    {
        let ghost before = peers@;
        let _ = peers.remove(self.peer_id.as_str());
        self.step = Step::AnnounceGone;
        assert(peers@.dom() =~= before.dom().remove(self.peer_id@));
    }

    /// Hands the first message out to be passed on.
    pub fn take_hello(&mut self) -> (m: Option<MeshMessage>)
        ensures
            m == old(self).hello(),
            final(self).hello() is None,
            final(self).progress() == old(self).progress(),
            final(self).text() == old(self).text(),
            final(self).peer_name() == old(self).peer_name(),
    {
        self.hello.take()
    }

    /// The announcement that the node at the other end is connected.
    pub fn connected_event(&self) -> (event: PeerEvent)
        ensures
            event matches PeerEvent::Connected { device_id, device_name, is_initiator } && {
                &&& device_id@ == self.progress().peer_id
                &&& device_name@ == self.peer_name()
                &&& is_initiator == self.progress().dialled
            },
    {
        PeerEvent::Connected {
            device_id: self.peer_id.clone(),
            device_name: self.peer_name.clone(),
            is_initiator: self.dialled,
        }
    }

    /// The announcement that the node at the other end is gone.
    pub fn gone_event(&self) -> (event: PeerEvent)
        ensures
            event matches PeerEvent::Disconnected { device_id } && device_id@
                == self.progress().peer_id,
    {
        PeerEvent::Disconnected { device_id: self.peer_id.clone() }
    }
}

} // verus!
