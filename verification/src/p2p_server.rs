//! Listening for other nodes, and what is read and written on a connection.
use crate::text::decimal_string;
use crate::websocket::MeshMessage;
use vstd::prelude::*;

verus! {

/// Longest message that is read, in bytes: ten mebibytes.
pub const MAX_MSG_SIZE: usize = 10 * 1024 * 1024;

/// How long to wait for the first message, in seconds.
pub const HELLO_TIMEOUT_SECS: u64 = 10;

/// How many messages may wait to be written on one connection.
pub const PEER_QUEUE_LEN: usize = 64;

/// A node came or went.
#[derive(Debug, Clone)]
pub enum PeerEvent {
    Connected {
        device_id: String,
        device_name: String,
        /// Whether this node dialled.
        is_initiator: bool,
    },
    Disconnected { device_id: String },
}

/// What a connection yields when it is read.
#[derive(Debug)]
pub enum Arrival {
    Text(String),
    /// The other side closes the connection.
    Close,
    /// A frame of another kind.
    Other,
    /// Reading failed.
    Failed,
    /// The connection is at its end.
    Ended,
}

/// What to do with what a connection yielded.
#[derive(Debug)]
pub enum ReadStep {
    /// Parse the text as a message and pass that on; a text that is no message is
    /// skipped.
    Parse(String),
    /// The text is longer than `MAX_MSG_SIZE`: drop it.
    TooLarge,
    Skip,
    Stop,
}

/// What became of a message that was to be written.
#[derive(Debug, Clone, Copy, PartialEq, Eq, Structural)]
pub enum WriteOutcome {
    Written,
    /// It could not be put in its wire form; it is skipped.
    NotEncoded,
    /// The connection did not take it.
    Failed,
}

/// The address that a server with the given port binds.
pub open spec fn bind_address(port: u16) -> Seq<char> {
    "0.0.0.0:"@ + crate::text::decimal(port as nat)
}

/// Writes the address to bind. Port zero leaves the choice to the system.
pub fn bind_address_string(port: u16) -> (s: String)
    ensures
        s@ == bind_address(port),
        exists|p: Seq<char>| s@ == "0.0.0.0:"@ + p && #[trigger] crate::text::is_numeral(p, port as int),
{
    proof {
        crate::text::decimal_reads_back(port as nat);
    }
    let mut s: String = "0.0.0.0:".to_owned();
    s.append(decimal_string(port as u64).as_str());
    s
}

/// Writes the error for a port that could not be bound.
pub fn bind_error(port: u16, cause: &str) -> (s: String)
    ensures
        s@ == "Failed to bind "@ + bind_address(port) + ": "@ + cause@,
{
    let mut s: String = "Failed to bind ".to_owned();
    s.append(bind_address_string(port).as_str());
    s.append(": ");
    s.append(cause);
    s
}

/// The name of the node that sent a first message: the one it gives, or else its
/// shortened id.
pub open spec fn introduced_name(hello: MeshMessage) -> Seq<char> {
    match hello.payload.text_field("device_name"@) {
        Some(name) => name,
        None => crate::websocket::short_form(hello.sender_id@),
    }
}

/// The name of a node that introduces itself is the text that its message gives for it,
/// or else the beginning of its id.
pub proof fn a_node_is_called_what_it_says(hello: MeshMessage, members: Seq<(String, crate::json::Json)>)
    requires
        hello.payload matches crate::json::Json::Object(m) && m@ == members,
        crate::json::names_differ(members),
    ensures
        forall|name: Seq<char>| #[trigger]
            crate::json::holds_text(members, "device_name"@, name) ==> introduced_name(hello) == name,
        (forall|name: Seq<char>| !#[trigger] crate::json::holds_text(members, "device_name"@, name))
            ==> introduced_name(hello).is_prefix_of(hello.sender_id@),
{
    crate::json::a_text_is_found_by_its_name(members, hello.payload, "device_name"@);
    crate::websocket::a_short_form_is_the_beginning(hello.sender_id@);
}

/// Whether writing goes on after a message.
pub fn writes_on(outcome: WriteOutcome) -> (r: bool)
    ensures
        r == (outcome != WriteOutcome::Failed),
{
    outcome != WriteOutcome::Failed
}

/// Says what to do with what a connection yielded. Only a text of at most
/// `MAX_MSG_SIZE` bytes is parsed; a closed, failed or ended connection is given up.
pub fn read_step(arrival: Arrival) -> (r: ReadStep)
    ensures
        match arrival {
            Arrival::Text(text) => if vstd::utf8::encode_utf8(text@).len() > MAX_MSG_SIZE {
                r is TooLarge
            } else {
                r == ReadStep::Parse(text)
            },
            Arrival::Other => r is Skip,
            Arrival::Close | Arrival::Failed | Arrival::Ended => r is Stop,
        },
        arrival matches Arrival::Text(text) ==> (r is TooLarge <==> vstd::utf8::encode_utf8(
            text@,
        ).len() > 10_485_760),
        r is Stop <==> arrival is Close || arrival is Failed || arrival is Ended,
{
    match arrival {
        Arrival::Text(text) => if text.as_str().as_bytes().len() > MAX_MSG_SIZE {
            ReadStep::TooLarge
        } else {
            ReadStep::Parse(text)
        },
        Arrival::Other => ReadStep::Skip,
        Arrival::Close | Arrival::Failed | Arrival::Ended => ReadStep::Stop,
    }
}

} // verus!
