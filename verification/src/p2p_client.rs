//! Connecting to the nodes that were found.
//!
//! Of two nodes the one with the smaller device id dials, so that they do not
//! both connect to each other.
use crate::discovery::DiscoveredPeer;
use crate::peers::PeerTable;
use crate::text::{decimal_string, precedes};
use vstd::prelude::*;

verus! {

/// What to do about a node that was found.
#[derive(Debug)]
pub enum DialPlan {
    /// It has the smaller id, or the same: it is the one to connect.
    TheyDial,
    AlreadyConnected,
    /// Connect to this address.
    Dial(String),
}

/// Whether a byte stands for itself in a URL: a letter, a digit, or one of `-._~`.
pub open spec fn is_unreserved(b: u8) -> bool {
    ||| 65 <= b <= 90
    ||| 97 <= b <= 122
    ||| 48 <= b <= 57
    ||| b == 45
    ||| b == 46
    ||| b == 95
    ||| b == 126
}

/// The upper-case hexadecimal digit of a value below sixteen.
pub open spec fn upper_hex_digit(n: int) -> char {
    if n < 10 {
        (48 + n) as char
    } else {
        (55 + n) as char
    }
}

/// What stands for a byte in a URL: itself, or a percent sign and two digits.
pub open spec fn url_byte(b: u8) -> Seq<char> {
    if is_unreserved(b) {
        seq![b as char]
    } else {
        seq!['%', upper_hex_digit(b as int / 16), upper_hex_digit(b as int % 16)]
    }
}

/// What stands for a sequence of bytes in a URL.
pub open spec fn url_bytes(bytes: Seq<u8>) -> Seq<char>
    decreases bytes.len(),
{
    if bytes.len() == 0 {
        Seq::empty()
    } else {
        url_byte(bytes[0]) + url_bytes(bytes.drop_first())
    }
}

/// What stands for a text in a URL.
pub open spec fn url_encoded(text: Seq<char>) -> Seq<char> {
    url_bytes(vstd::utf8::encode_utf8(text))
}

/// The bytes that percent-encoded characters stand for.
pub open spec fn url_decoded_bytes(s: Seq<char>) -> Seq<u8>
    decreases s.len(),
{
    if s.len() == 0 {
        Seq::empty()
    } else if s[0] == '%' && s.len() >= 3 {
        let b = (16 * crate::text::hex_value(s[1]) + crate::text::hex_value(s[2])) as u8;
        seq![b] + url_decoded_bytes(s.skip(3))
    } else {
        seq![s[0] as u8] + url_decoded_bytes(s.drop_first())
    }
}

/// Whether a character may stand in a percent-encoded text.
pub open spec fn is_url_char(c: char) -> bool {
    c == '%' || (c as int) < 128 && is_unreserved(c as u8)
}

proof fn url_bytes_round_trip(bytes: Seq<u8>)
    ensures
        url_decoded_bytes(url_bytes(bytes)) == bytes,
        forall|i: int| 0 <= i < url_bytes(bytes).len() ==> is_url_char(#[trigger] url_bytes(bytes)[i]),
    decreases bytes.len(),
{
    if bytes.len() > 0 {
        let b = bytes[0];
        let head = url_byte(b);
        let tail = url_bytes(bytes.drop_first());
        let s = url_bytes(bytes);
        url_bytes_round_trip(bytes.drop_first());
        assert(s == head + tail);
        let hi = b as int / 16;
        let lo = b as int % 16;
        assert(0 <= hi < 16 && 0 <= lo < 16);
        if is_unreserved(b) {
            assert(s.drop_first() =~= tail);
            assert(s[0] == b as char);
            assert(s[0] as u8 == b);
        } else {
            assert(s.skip(3) =~= tail);
            assert(s[1] == upper_hex_digit(hi) && s[2] == upper_hex_digit(lo));
            assert(crate::text::hex_value(s[1]) == hi && crate::text::hex_value(s[2]) == lo);
            assert(16 * hi + lo == b);
        }
        assert(bytes =~= seq![b] + bytes.drop_first());
        assert forall|i: int| 0 <= i < s.len() implies is_url_char(#[trigger] s[i]) by {
            if i >= head.len() {
                assert(s[i] == tail[i - head.len()]);
            } else {
                assert(s[i] == head[i]);
            }
        }
    }
}

/// A percent-encoded text consists of unreserved characters and percent signs
/// alone, and decodes to the bytes of the text it was made from.
pub proof fn url_round_trip(text: Seq<char>)
    ensures
        url_decoded_bytes(url_encoded(text)) == vstd::utf8::encode_utf8(text),
        forall|i: int| 0 <= i < url_encoded(text).len() ==> is_url_char(#[trigger] url_encoded(text)[i]),
{
    url_bytes_round_trip(vstd::utf8::encode_utf8(text));
}

/// In a URL an unreserved byte stands for itself, and any other is a percent sign and the
/// upper-case hexadecimal digits of its two halves.
pub proof fn a_byte_is_kept_or_escaped(b: u8)
    ensures
        ({
            let unreserved = 'A' as u8 <= b <= 'Z' as u8 || 'a' as u8 <= b <= 'z' as u8 || '0' as u8
                <= b <= '9' as u8 || b == '-' as u8 || b == '.' as u8 || b == '_' as u8 || b
                == '~' as u8;
            let s = url_byte(b);
            &&& unreserved ==> s.len() == 1 && s[0] as int == b
            &&& !unreserved ==> s.len() == 3 && s[0] == '%' && is_upper_digit_of(
                s[1],
                b as int / 16,
            ) && is_upper_digit_of(s[2], b as int % 16)
        }),
{
    assert(0 <= b as int / 16 < 16);
}

/// Whether a character is the upper-case hexadecimal digit of `n`.
pub open spec fn is_upper_digit_of(c: char, n: int) -> bool {
    ||| '0' <= c <= '9' && c as int - '0' as int == n
    ||| 'A' <= c <= 'F' && c as int - 'A' as int + 10 == n
}

/// What stands for bytes in a URL is put together from what stands for each of them.
pub proof fn bytes_are_encoded_one_by_one(a: Seq<u8>, b: Seq<u8>, byte: u8)
    ensures
        url_bytes(Seq::empty()) == Seq::<char>::empty(),
        url_bytes(seq![byte]) == url_byte(byte),
        url_bytes(a + b) == url_bytes(a) + url_bytes(b),
    decreases a.len(),
{
    reveal_with_fuel(url_bytes, 2);
    assert(seq![byte].drop_first() =~= seq![]);
    assert(url_bytes(seq![byte]) =~= url_byte(byte));
    if a.len() == 0 {
        assert(a + b =~= b);
        assert(url_bytes(a + b) =~= url_bytes(a) + url_bytes(b));
    } else {
        bytes_are_encoded_one_by_one(a.drop_first(), b, byte);
        assert((a + b).drop_first() =~= a.drop_first() + b);
        assert(url_bytes(a + b) =~= url_bytes(a) + url_bytes(b));
    }
}

/// An upper-case hexadecimal digit.
fn upper_hex_char(n: u8) -> (c: char)
    requires
        n < 16,
    ensures
        c == upper_hex_digit(n as int),
{
    if n < 10 {
        (48 + n) as char
    } else {
        (55 + n) as char
    }
}

/// Percent-encodes a text for use in a URL.
pub fn url_encode(input: &str) -> (r: String)
    ensures
        r@ == url_encoded(input@),
        r@ == url_bytes(vstd::utf8::encode_utf8(input@)),
        url_decoded_bytes(r@) == vstd::utf8::encode_utf8(input@),
        forall|i: int| 0 <= i < r@.len() ==> is_url_char(#[trigger] r@[i]),
{
    proof {
        url_round_trip(input@);
    }
    let bytes = input.as_bytes();
    let mut r: String = String::new();
    let mut i: usize = 0;
    assert(bytes@.skip(0) =~= bytes@);
    while i < bytes.len()
        invariant
            i <= bytes@.len(),
            url_bytes(bytes@) == r@ + url_bytes(bytes@.skip(i as int)),
        decreases bytes@.len() - i,
    {
        let b: u8 = bytes[i];
        let ghost before = r@;
        assert(bytes@.skip(i as int).drop_first() =~= bytes@.skip(i + 1));
        let unreserved: bool = (65 <= b && b <= 90) || (97 <= b && b <= 122) || (48 <= b && b
            <= 57) || b == 45 || b == 46 || b == 95 || b == 126;
        if unreserved {
            r.push(b as char);
        } else {
            r.push('%');
            r.push(upper_hex_char(b / 16));
            r.push(upper_hex_char(b % 16));
        }
        assert(r@ =~= before + url_byte(b));
        assert(url_bytes(bytes@) =~= r@ + url_bytes(bytes@.skip(i + 1)));
        i += 1;
    }
    assert(url_bytes(bytes@) =~= r@);
    r
}

/// The four parts of an address, with points between them.
pub open spec fn dotted(ip: [u8; 4]) -> Seq<char> {
    crate::text::decimal(ip@[0] as nat) + "."@ + crate::text::decimal(ip@[1] as nat) + "."@
        + crate::text::decimal(ip@[2] as nat) + "."@ + crate::text::decimal(ip@[3] as nat)
}

/// The URL at which a node is reached by one with the given id and name.
pub open spec fn peer_url(
    ip: [u8; 4],
    port: u16,
    our_device_id: Seq<char>,
    our_device_name: Seq<char>,
) -> Seq<char> {
    "ws://"@ + dotted(ip) + ":"@ + crate::text::decimal(port as nat) + "/clipmesh?device_id="@
        + url_encoded(our_device_id) + "&device_name="@ + url_encoded(our_device_name)
}

/// Where two texts that do not hold a character are followed by it, equal wholes have
/// equal parts.
proof fn equal_up_to_the_mark(
    a: Seq<char>,
    x: Seq<char>,
    b: Seq<char>,
    y: Seq<char>,
    mark: char,
)
    requires
        a + seq![mark] + x == b + seq![mark] + y,
        forall|i: int| 0 <= i < a.len() ==> a[i] != mark,
        forall|i: int| 0 <= i < b.len() ==> b[i] != mark,
    ensures
        a == b,
        x == y,
{
    let s = a + seq![mark] + x;
    let t = b + seq![mark] + y;
    assert(s[a.len() as int] == mark);
    assert(t[b.len() as int] == mark);
    assert(a.len() == b.len()) by {
        if a.len() < b.len() {
            assert(t[a.len() as int] == b[a.len() as int]);
        } else if b.len() < a.len() {
            assert(s[b.len() as int] == a[b.len() as int]);
        }
    }
    let n = a.len() as int;
    assert(s.take(n) =~= a && t.take(n) =~= b);
    assert(s.skip(n + 1) =~= x && t.skip(n + 1) =~= y);
}

/// The parts of a URL, each with what follows it.
proof fn url_parts(ip: [u8; 4], port: u16, id: Seq<char>, name: Seq<char>)
    ensures
        ({
            let d = |i: int| crate::text::decimal(ip@[i] as nat);
            let p = crate::text::decimal(port as nat);
            let last = url_encoded(id) + seq!['&'] + ("device_name="@ + url_encoded(name));
            let path = p + seq!['/'] + ("clipmesh?device_id="@ + last);
            let host = d(0) + seq!['.'] + (d(1) + seq!['.'] + (d(2) + seq!['.'] + (d(3) + seq![':']
                + path)));
            peer_url(ip, port, id, name) == "ws://"@ + host
        }),
{
    reveal_strlit(".");
    reveal_strlit(":");
    reveal_strlit("/clipmesh?device_id=");
    reveal_strlit("clipmesh?device_id=");
    reveal_strlit("&device_name=");
    reveal_strlit("device_name=");
    assert("."@ =~= seq!['.']);
    assert(":"@ =~= seq![':']);
    assert("/clipmesh?device_id="@ =~= seq!['/'] + "clipmesh?device_id="@);
    assert("&device_name="@ =~= seq!['&'] + "device_name="@);
    let d0 = crate::text::decimal(ip@[0] as nat);
    let d1 = crate::text::decimal(ip@[1] as nat);
    let d2 = crate::text::decimal(ip@[2] as nat);
    let d3 = crate::text::decimal(ip@[3] as nat);
    let p = crate::text::decimal(port as nat);
    let last = url_encoded(id) + seq!['&'] + ("device_name="@ + url_encoded(name));
    let path = p + seq!['/'] + ("clipmesh?device_id="@ + last);
    let host = d0 + seq!['.'] + (d1 + seq!['.'] + (d2 + seq!['.'] + (d3 + seq![':'] + path)));
    assert(peer_url(ip, port, id, name) =~= "ws://"@ + host);
}

/// Whether `url` says `ws://`, the four parts of the address, the port, and the
/// percent-encoded id and name of the node that dials, each part where it belongs.
pub open spec fn names_the_node(
    url: Seq<char>,
    ip: [u8; 4],
    port: u16,
    our_device_id: Seq<char>,
    our_device_name: Seq<char>,
) -> bool {
    exists|a: Seq<char>, b: Seq<char>, c: Seq<char>, d: Seq<char>, p: Seq<char>, id: Seq<char>, name: Seq<char>|
        {
            &&& url == "ws://"@ + a + "."@ + b + "."@ + c + "."@ + d + ":"@ + p
                + "/clipmesh?device_id="@ + id + "&device_name="@ + name
            &&& #[trigger] crate::text::is_numeral(a, ip@[0] as int)
            &&& #[trigger] crate::text::is_numeral(b, ip@[1] as int)
            &&& #[trigger] crate::text::is_numeral(c, ip@[2] as int)
            &&& #[trigger] crate::text::is_numeral(d, ip@[3] as int)
            &&& #[trigger] crate::text::is_numeral(p, port as int)
            &&& #[trigger] url_decoded_bytes(id) == vstd::utf8::encode_utf8(our_device_id)
            &&& #[trigger] url_decoded_bytes(name) == vstd::utf8::encode_utf8(our_device_name)
        }
}

/// A node is dialled at the address and the port where it was found: the numbers in the
/// URL, read in decimal, are those of the node, and what stands for id and name decodes
/// to those of the node that dials.
pub proof fn a_url_names_the_node(
    ip: [u8; 4],
    port: u16,
    our_device_id: Seq<char>,
    our_device_name: Seq<char>,
)
    ensures
        names_the_node(
            peer_url(ip, port, our_device_id, our_device_name),
            ip,
            port,
            our_device_id,
            our_device_name,
        ),
{
    crate::text::decimal_reads_back(ip@[0] as nat);
    crate::text::decimal_reads_back(ip@[1] as nat);
    crate::text::decimal_reads_back(ip@[2] as nat);
    crate::text::decimal_reads_back(ip@[3] as nat);
    crate::text::decimal_reads_back(port as nat);
    url_round_trip(our_device_id);
    url_round_trip(our_device_name);
    let a = crate::text::decimal(ip@[0] as nat);
    let b = crate::text::decimal(ip@[1] as nat);
    let c = crate::text::decimal(ip@[2] as nat);
    let d = crate::text::decimal(ip@[3] as nat);
    let p = crate::text::decimal(port as nat);
    let id = url_encoded(our_device_id);
    let name = url_encoded(our_device_name);
    assert(peer_url(ip, port, our_device_id, our_device_name) =~= "ws://"@ + a + "."@ + b + "."@ + c
        + "."@ + d + ":"@ + p + "/clipmesh?device_id="@ + id + "&device_name="@ + name);
    assert(crate::text::is_numeral(a, ip@[0] as int));
    assert(crate::text::is_numeral(b, ip@[1] as int));
    assert(crate::text::is_numeral(c, ip@[2] as int));
    assert(crate::text::is_numeral(d, ip@[3] as int));
    assert(crate::text::is_numeral(p, port as int));
    assert(url_decoded_bytes(id) == vstd::utf8::encode_utf8(our_device_id));
    assert(url_decoded_bytes(name) == vstd::utf8::encode_utf8(our_device_name));
}

/// Nodes found at different addresses or ports are dialled at different URLs, and so are
/// they by nodes with different ids or names: a URL tells all of them.
pub proof fn different_nodes_have_different_urls(
    ip1: [u8; 4],
    port1: u16,
    id1: Seq<char>,
    name1: Seq<char>,
    ip2: [u8; 4],
    port2: u16,
    id2: Seq<char>,
    name2: Seq<char>,
)
    requires
        peer_url(ip1, port1, id1, name1) == peer_url(ip2, port2, id2, name2),
    ensures
        ip1@ == ip2@,
        port1 == port2,
        id1 == id2,
        name1 == name2,
{
    url_parts(ip1, port1, id1, name1);
    url_parts(ip2, port2, id2, name2);
    url_round_trip(id1);
    url_round_trip(id2);
    url_round_trip(name1);
    url_round_trip(name2);
    let last1 = url_encoded(id1) + seq!['&'] + ("device_name="@ + url_encoded(name1));
    let last2 = url_encoded(id2) + seq!['&'] + ("device_name="@ + url_encoded(name2));
    let p1 = crate::text::decimal(port1 as nat);
    let p2 = crate::text::decimal(port2 as nat);
    crate::text::decimal_reads_back(port1 as nat);
    crate::text::decimal_reads_back(port2 as nat);
    let t1 = "clipmesh?device_id="@ + last1;
    let t2 = "clipmesh?device_id="@ + last2;
    let path1 = p1 + seq!['/'] + t1;
    let path2 = p2 + seq!['/'] + t2;
    let a1 = crate::text::decimal(ip1@[0] as nat);
    let b1 = crate::text::decimal(ip1@[1] as nat);
    let c1 = crate::text::decimal(ip1@[2] as nat);
    let d1 = crate::text::decimal(ip1@[3] as nat);
    let a2 = crate::text::decimal(ip2@[0] as nat);
    let b2 = crate::text::decimal(ip2@[1] as nat);
    let c2 = crate::text::decimal(ip2@[2] as nat);
    let d2 = crate::text::decimal(ip2@[3] as nat);
    crate::text::decimal_reads_back(ip1@[0] as nat);
    crate::text::decimal_reads_back(ip1@[1] as nat);
    crate::text::decimal_reads_back(ip1@[2] as nat);
    crate::text::decimal_reads_back(ip1@[3] as nat);
    crate::text::decimal_reads_back(ip2@[0] as nat);
    crate::text::decimal_reads_back(ip2@[1] as nat);
    crate::text::decimal_reads_back(ip2@[2] as nat);
    crate::text::decimal_reads_back(ip2@[3] as nat);
    let h1 = a1 + seq!['.'] + (b1 + seq!['.'] + (c1 + seq!['.'] + (d1 + seq![':'] + path1)));
    let h2 = a2 + seq!['.'] + (b2 + seq!['.'] + (c2 + seq!['.'] + (d2 + seq![':'] + path2)));
    reveal_strlit("ws://");
    assert(("ws://"@ + h1).skip(5) =~= h1);
    assert(("ws://"@ + h2).skip(5) =~= h2);
    assert(h1 == h2);
    equal_up_to_the_mark(
        a1,
        b1 + seq!['.'] + (c1 + seq!['.'] + (d1 + seq![':'] + path1)),
        a2,
        b2 + seq!['.'] + (c2 + seq!['.'] + (d2 + seq![':'] + path2)),
        '.',
    );
    equal_up_to_the_mark(
        b1,
        c1 + seq!['.'] + (d1 + seq![':'] + path1),
        b2,
        c2 + seq!['.'] + (d2 + seq![':'] + path2),
        '.',
    );
    equal_up_to_the_mark(c1, d1 + seq![':'] + path1, c2, d2 + seq![':'] + path2, '.');
    equal_up_to_the_mark(d1, path1, d2, path2, ':');
    equal_up_to_the_mark(p1, t1, p2, t2, '/');
    let n = "clipmesh?device_id="@.len() as int;
    assert(t1.skip(n) =~= last1);
    assert(t2.skip(n) =~= last2);
    assert forall|i: int| 0 <= i < url_encoded(id1).len() implies url_encoded(id1)[i] != '&' by {
        assert(is_url_char(url_encoded(id1)[i]));
    }
    assert forall|i: int| 0 <= i < url_encoded(id2).len() implies url_encoded(id2)[i] != '&' by {
        assert(is_url_char(url_encoded(id2)[i]));
    }
    equal_up_to_the_mark(
        url_encoded(id1),
        "device_name="@ + url_encoded(name1),
        url_encoded(id2),
        "device_name="@ + url_encoded(name2),
        '&',
    );
    let k = "device_name="@.len() as int;
    assert(("device_name="@ + url_encoded(name1)).skip(k) =~= url_encoded(name1));
    assert(("device_name="@ + url_encoded(name2)).skip(k) =~= url_encoded(name2));
    vstd::utf8::encode_utf8_decode_utf8(id1);
    vstd::utf8::encode_utf8_decode_utf8(id2);
    vstd::utf8::encode_utf8_decode_utf8(name1);
    vstd::utf8::encode_utf8_decode_utf8(name2);
    assert(ip1@ =~= ip2@);
}

/// Whether a node with the id `ours` dials one with the id `theirs`.
pub open spec fn dials(ours: Seq<char>, theirs: Seq<char>) -> bool {
    crate::text::text_precedes(ours, theirs)
}

/// Of two nodes that find each other exactly one dials; a node never dials itself.
pub proof fn exactly_one_side_dials(a: Seq<char>, b: Seq<char>)
    ensures
        !dials(a, a),
        a != b ==> dials(a, b) != dials(b, a),
{
    crate::text::text_precedes_is_total(a, b);
}

/// The node that dials is the one with the smaller id: at the first byte where the two
/// ids differ its id ends or has the smaller byte.
pub proof fn the_smaller_id_dials(ours: Seq<char>, theirs: Seq<char>)
    ensures
        dials(ours, theirs) <==> exists|k: int|
            crate::text::differ_at(
                vstd::utf8::encode_utf8(ours),
                vstd::utf8::encode_utf8(theirs),
                k,
            ),
{
    crate::text::the_first_difference_decides(
        vstd::utf8::encode_utf8(ours),
        vstd::utf8::encode_utf8(theirs),
    );
}

/// Writes an address with points between its parts.
fn dotted_string(ip: &[u8; 4]) -> (s: String)
    ensures
        s@ == dotted(*ip),
{
    let mut s: String = decimal_string(ip[0] as u64);
    s.append(".");
    s.append(decimal_string(ip[1] as u64).as_str());
    s.append(".");
    s.append(decimal_string(ip[2] as u64).as_str());
    s.append(".");
    s.append(decimal_string(ip[3] as u64).as_str());
    s
}

/// Decides whether to dial a node that was found, and where. Only a node with a
/// larger id that is not connected yet is dialled.
pub fn plan_dial<S>(
    peer: &DiscoveredPeer,
    our_device_id: &str,
    our_device_name: &str,
    peers: &PeerTable<S>,
) -> (plan: DialPlan)
    ensures
        match plan {
            DialPlan::TheyDial => !dials(our_device_id@, peer.device_id@),
            DialPlan::AlreadyConnected => {
                &&& dials(our_device_id@, peer.device_id@)
                &&& peers@.dom().contains(peer.device_id@)
            },
            DialPlan::Dial(url) => {
                &&& dials(our_device_id@, peer.device_id@)
                &&& !peers@.dom().contains(peer.device_id@)
                &&& url@ == peer_url(peer.ip, peer.port, our_device_id@, our_device_name@)
                &&& names_the_node(url@, peer.ip, peer.port, our_device_id@, our_device_name@)
                &&& url@ == "ws://"@ + (crate::text::decimal(peer.ip@[0] as nat) + "."@
                    + crate::text::decimal(peer.ip@[1] as nat) + "."@ + crate::text::decimal(
                    peer.ip@[2] as nat,
                ) + "."@ + crate::text::decimal(peer.ip@[3] as nat)) + ":"@ + crate::text::decimal(
                    peer.port as nat,
                ) + "/clipmesh?device_id="@ + url_bytes(vstd::utf8::encode_utf8(our_device_id@))
                    + "&device_name="@ + url_bytes(vstd::utf8::encode_utf8(our_device_name@))
            },
        },
        !(plan is TheyDial) <==> exists|k: int|
            crate::text::differ_at(
                vstd::utf8::encode_utf8(our_device_id@),
                vstd::utf8::encode_utf8(peer.device_id@),
                k,
            ),
{
    proof {
        a_url_names_the_node(peer.ip, peer.port, our_device_id@, our_device_name@);
        the_smaller_id_dials(our_device_id@, peer.device_id@);
    }
    if !precedes(our_device_id, peer.device_id.as_str()) {
        return DialPlan::TheyDial;
    }
    if peers.contains_key(peer.device_id.as_str()) {
        return DialPlan::AlreadyConnected;
    }
    let mut url: String = "ws://".to_owned();
    url.append(dotted_string(&peer.ip).as_str());
    url.append(":");
    url.append(decimal_string(peer.port as u64).as_str());
    url.append("/clipmesh?device_id=");
    url.append(url_encode(our_device_id).as_str());
    url.append("&device_name=");
    url.append(url_encode(our_device_name).as_str());
    DialPlan::Dial(url)
}

} // verus!
