//! Text in the forms the node reads and prints: decimal and hexadecimal
//! numerals, and the order in which identifiers are compared.
use vstd::prelude::*;

verus! {

/// The decimal numeral of `n`, most significant digit first, without leading zeros.
pub open spec fn decimal(n: nat) -> Seq<char>
    decreases n,
{
    if n < 10 {
        seq![(48 + n) as char]
    } else {
        decimal(n / 10).push((48 + n % 10) as char)
    }
}

/// The number that decimal digits spell.
pub open spec fn digits_value(s: Seq<char>) -> int
    decreases s.len(),
{
    if s.len() == 0 {
        0
    } else {
        10 * digits_value(s.drop_last()) + (s.last() as int - '0' as int)
    }
}

/// Whether `s` is the numeral of `n`: digits that spell it, without leading zeros.
pub open spec fn is_numeral(s: Seq<char>, n: int) -> bool {
    &&& s.len() > 0
    &&& forall|i: int| 0 <= i < s.len() ==> '0' <= #[trigger] s[i] <= '9'
    &&& s.len() > 1 ==> s[0] != '0'
    &&& digits_value(s) == n
}

/// What is written for a number reads back as that number.
pub proof fn decimal_reads_back(n: nat)
    ensures
        is_numeral(decimal(n), n as int),
    decreases n,
{
    let s = decimal(n);
    if n < 10 {
        assert(s.drop_last() =~= seq![]);
        assert(digits_value(seq![]) == 0);
    } else {
        decimal_reads_back(n / 10);
        let head = decimal(n / 10);
        assert(s.drop_last() =~= head);
        assert(head[0] != '0') by {
            if head.len() == 1 {
                assert(head.drop_last() =~= seq![]);
                assert(digits_value(seq![]) == 0);
            }
        }
        assert forall|i: int| 0 <= i < s.len() implies '0' <= #[trigger] s[i] <= '9' by {
            if i < head.len() {
                assert(s[i] == head[i]);
            }
        }
        assert(s[0] == head[0]);
    }
}

/// Writes `n` in decimal.
pub fn decimal_string(n: u64) -> (s: String)
    ensures
        s@ == decimal(n as nat),
        is_numeral(s@, n as int),
    decreases n,
{
    proof {
        decimal_reads_back(n as nat);
    }
    let mut s: String = if n < 10 {
        String::new()
    } else {
        decimal_string(n / 10)
    };
    let digit: u8 = (n % 10) as u8;
    s.push((48 + digit) as char);
    s
}

/// Whether two texts are the same.
pub fn same_text(a: &str, b: &str) -> (r: bool)
    ensures
        r == (a@ == b@),
{
    a.to_owned() == b.to_owned()
}

/// The text that may be there.
pub open spec fn optional_text(s: Option<String>) -> Option<Seq<char>> {
    match s {
        Some(s) => Some(s@),
        None => None,
    }
}

/// The lower-case hexadecimal digit of a value below sixteen.
pub open spec fn hex_digit(n: int) -> char {
    if n < 10 {
        (48 + n) as char
    } else {
        (87 + n) as char
    }
}

/// The lower-case hexadecimal form of `bytes`: two digits for each byte, high half first.
pub open spec fn hex_lower(bytes: Seq<u8>) -> Seq<char> {
    Seq::new(
        bytes.len() * 2,
        |i: int|
            if i % 2 == 0 {
                hex_digit(bytes[i / 2] as int / 16)
            } else {
                hex_digit(bytes[i / 2] as int % 16)
            },
    )
}

/// Whether `c` is a lower-case hexadecimal digit.
pub open spec fn is_lower_hex_digit(c: char) -> bool {
    '0' <= c <= '9' || 'a' <= c <= 'f'
}

/// Whether `c` is a hexadecimal digit, in either case.
pub open spec fn is_hex_digit(c: char) -> bool {
    is_lower_hex_digit(c) || 'A' <= c <= 'F'
}

/// The value of a hexadecimal digit.
pub open spec fn hex_value(c: char) -> int {
    if '0' <= c <= '9' {
        c as int - 48
    } else if 'a' <= c <= 'f' {
        c as int - 87
    } else {
        c as int - 55
    }
}

/// Whether `s` spells a sequence of bytes: an even number of hexadecimal digits.
pub open spec fn is_hex(s: Seq<char>) -> bool {
    &&& s.len() % 2 == 0
    &&& forall|i: int| 0 <= i < s.len() ==> is_hex_digit(#[trigger] s[i])
}

/// The bytes that a hexadecimal text spells.
pub open spec fn hex_bytes(s: Seq<char>) -> Seq<u8> {
    Seq::new(s.len() / 2, |i: int| (16 * hex_value(s[2 * i]) + hex_value(s[2 * i + 1])) as u8)
}

/// Whether a character is the lower-case hexadecimal digit of `n`.
pub open spec fn is_hex_digit_of(c: char, n: int) -> bool {
    ||| '0' <= c <= '9' && c as int - '0' as int == n
    ||| 'a' <= c <= 'f' && c as int - 'a' as int + 10 == n
}

/// Whether a character is the hexadecimal digit of `n`, in either case.
pub open spec fn is_any_hex_digit_of(c: char, n: int) -> bool {
    is_hex_digit_of(c, n) || 'A' <= c <= 'F' && c as int - 'A' as int + 10 == n
}

/// In hexadecimal the digits at twice a byte's position are those of its two halves,
/// the high one first.
pub proof fn hex_writes_both_halves(bytes: Seq<u8>, i: int)
    requires
        0 <= i < bytes.len(),
    ensures
        hex_lower(bytes).len() == 2 * bytes.len(),
        is_hex_digit_of(hex_lower(bytes)[2 * i], bytes[i] as int / 16),
        is_hex_digit_of(hex_lower(bytes)[2 * i + 1], bytes[i] as int % 16),
{
    assert((2 * i) / 2 == i && (2 * i + 1) / 2 == i);
    assert((2 * i) % 2 == 0 && (2 * i + 1) % 2 == 1);
    assert(0 <= bytes[i] as int / 16 < 16);
}

/// A text is read as hexadecimal if and only if it is an even number of digits, in
/// either case, and then each two digits give the byte whose halves they are.
pub proof fn hex_reads_both_halves(s: Seq<char>, i: int, high: int, low: int)
    requires
        0 <= i < s.len() / 2,
        0 <= high < 16,
        0 <= low < 16,
        is_any_hex_digit_of(s[2 * i], high),
        is_any_hex_digit_of(s[2 * i + 1], low),
    ensures
        hex_bytes(s).len() == s.len() / 2,
        hex_bytes(s)[i] == 16 * high + low,
{
}

/// Which texts are read as hexadecimal.
pub proof fn hex_is_an_even_number_of_digits(s: Seq<char>)
    ensures
        is_hex(s) <==> s.len() % 2 == 0 && forall|i: int|
            0 <= i < s.len() ==> '0' <= #[trigger] s[i] <= '9' || 'a' <= s[i] <= 'f' || 'A' <= s[i]
                <= 'F',
{
}

/// Reading back what was written in hexadecimal gives the bytes that were written.
pub proof fn hex_round_trip(bytes: Seq<u8>)
    ensures
        is_hex(hex_lower(bytes)),
        hex_bytes(hex_lower(bytes)) == bytes,
        hex_lower(bytes).len() == 2 * bytes.len(),
        forall|i: int|
            0 <= i < hex_lower(bytes).len() ==> is_lower_hex_digit(#[trigger] hex_lower(bytes)[i]),
{
    let s = hex_lower(bytes);
    assert forall|i: int| 0 <= i < s.len() implies is_lower_hex_digit(#[trigger] s[i]) by {
        let b = bytes[i / 2];
        assert(0 <= b as int / 16 < 16);
    }
    assert forall|i: int| 0 <= i < bytes.len() implies hex_bytes(s)[i] == bytes[i] by {
        assert((2 * i) / 2 == i && (2 * i + 1) / 2 == i);
        assert((2 * i) % 2 == 0 && (2 * i + 1) % 2 == 1);
        let b = bytes[i] as int;
        assert(s[2 * i] == hex_digit(b / 16));
        assert(s[2 * i + 1] == hex_digit(b % 16));
        assert(0 <= b / 16 < 16 && 0 <= b % 16 < 16);
        assert(hex_value(hex_digit(b / 16)) == b / 16);
        assert(hex_value(hex_digit(b % 16)) == b % 16);
    }
    assert(hex_bytes(s) =~= bytes);
}

/// Whether `a` comes strictly before `b`, byte by byte, a prefix before what it begins.
pub open spec fn bytes_precede(a: Seq<u8>, b: Seq<u8>) -> bool
    decreases b.len(),
{
    if b.len() == 0 {
        false
    } else if a.len() == 0 {
        true
    } else if a[0] != b[0] {
        a[0] < b[0]
    } else {
        bytes_precede(a.drop_first(), b.drop_first())
    }
}

/// Whether text `a` comes strictly before text `b`, in the order of their UTF-8 bytes.
pub open spec fn text_precedes(a: Seq<char>, b: Seq<char>) -> bool {
    bytes_precede(vstd::utf8::encode_utf8(a), vstd::utf8::encode_utf8(b))
}

/// Of two different byte sequences exactly one precedes the other; none precedes itself.
pub proof fn bytes_precede_is_total(a: Seq<u8>, b: Seq<u8>)
    ensures
        a == b ==> !bytes_precede(a, b),
        a != b ==> bytes_precede(a, b) != bytes_precede(b, a),
    decreases b.len(),
{
    if a.len() > 0 && b.len() > 0 {
        if a[0] == b[0] {
            bytes_precede_is_total(a.drop_first(), b.drop_first());
            if a != b {
                assert(a =~= seq![a[0]] + a.drop_first());
                assert(b =~= seq![b[0]] + b.drop_first());
                assert(a.drop_first() != b.drop_first());
            }
        }
    } else if a.len() == 0 && b.len() == 0 {
        assert(a =~= b);
    }
}

/// Of two different texts exactly one precedes the other; none precedes itself.
pub proof fn text_precedes_is_total(a: Seq<char>, b: Seq<char>)
    ensures
        !text_precedes(a, a),
        a != b ==> text_precedes(a, b) != text_precedes(b, a),
{
    let x = vstd::utf8::encode_utf8(a);
    let y = vstd::utf8::encode_utf8(b);
    bytes_precede_is_total(x, x);
    bytes_precede_is_total(x, y);
    vstd::utf8::encode_utf8_decode_utf8(a);
    vstd::utf8::encode_utf8_decode_utf8(b);
}

/// Whether `a` and `b` are the same up to position `k`, and there `a` ends before `b`
/// or has the smaller byte.
pub open spec fn differ_at(a: Seq<u8>, b: Seq<u8>, k: int) -> bool {
    &&& 0 <= k <= a.len()
    &&& k < b.len()
    &&& forall|i: int| 0 <= i < k ==> a[i] == b[i]
    &&& k < a.len() ==> a[k] < b[k]
}

/// One sequence of bytes precedes another if and only if at the first position where
/// they differ it ends or has the smaller byte.
pub proof fn the_first_difference_decides(a: Seq<u8>, b: Seq<u8>)
    ensures
        bytes_precede(a, b) <==> exists|k: int| differ_at(a, b, k),
    decreases b.len(),
{
    if b.len() > 0 && a.len() == 0 {
        assert(differ_at(a, b, 0));
    } else if b.len() > 0 && a[0] != b[0] {
        if a[0] < b[0] {
            assert(differ_at(a, b, 0));
        }
        if exists|k: int| differ_at(a, b, k) {
            let k = choose|k: int| differ_at(a, b, k);
            assert(k == 0);
        }
    } else if b.len() > 0 {
        let x = a.drop_first();
        let y = b.drop_first();
        the_first_difference_decides(x, y);
        if bytes_precede(a, b) {
            let k = choose|k: int| differ_at(x, y, k);
            assert forall|i: int| 0 <= i < k + 1 implies a[i] == b[i] by {
                if i > 0 {
                    assert(x[i - 1] == y[i - 1]);
                }
            }
            assert(k < x.len() ==> a[k + 1] == x[k] && b[k + 1] == y[k]);
            assert(differ_at(a, b, k + 1));
        }
        if exists|k: int| differ_at(a, b, k) {
            let k = choose|k: int| differ_at(a, b, k);
            assert(k > 0);
            assert forall|i: int| 0 <= i < k - 1 implies x[i] == y[i] by {
                assert(a[i + 1] == b[i + 1]);
            }
            assert(differ_at(x, y, k - 1));
        }
    }
}

/// Compares two texts by their UTF-8 bytes.
pub fn precedes(a: &str, b: &str) -> (r: bool)
    ensures
        r == text_precedes(a@, b@),
        r == exists|k: int|
            differ_at(vstd::utf8::encode_utf8(a@), vstd::utf8::encode_utf8(b@), k),
{
    proof {
        the_first_difference_decides(vstd::utf8::encode_utf8(a@), vstd::utf8::encode_utf8(b@));
    }
    let x = a.as_bytes();
    let y = b.as_bytes();
    let mut i: usize = 0;
    assert(x@.skip(0) =~= x@ && y@.skip(0) =~= y@);
    while i < x.len() && i < y.len() && x[i] == y[i]
        invariant
            i <= x@.len(),
            i <= y@.len(),
            bytes_precede(x@, y@) == bytes_precede(x@.skip(i as int), y@.skip(i as int)),
        decreases x@.len() - i,
    {
        assert(x@.skip(i as int).drop_first() =~= x@.skip(i + 1));
        assert(y@.skip(i as int).drop_first() =~= y@.skip(i + 1));
        i += 1;
    }
    if i >= y.len() {
        false
    } else if i >= x.len() {
        true
    } else {
        x[i] < y[i]
    }
}

} // verus!
