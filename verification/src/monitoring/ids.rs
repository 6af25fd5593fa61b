//! Addresses and the ids derived from them.
//!
//! Nodes on one system-on-chip share the first three octets of their IPv4
//! address and the tens of the last one; nodes on one board share the
//! first three octets and the hundreds of the last one.  The SoC id and the
//! board id are the address with the last octet rounded down accordingly.

use vstd::prelude::*;
use crate::text::{concat2, digit_char, nat_decimal, push_char, push_u64, str_chars};

verus! {

/// The pieces of `s` from `start` on, scanning from `i`, when `s` is cut
/// at each `c`.
pub open spec fn split_char_from(s: Seq<char>, c: char, start: int, i: int) -> Seq<Seq<char>>
    decreases s.len() - i,
{
    if i >= s.len() {
        seq![s.subrange(start, s.len() as int)]
    } else if s[i] == c {
        seq![s.subrange(start, i)] + split_char_from(s, c, i + 1, i + 1)
    } else {
        split_char_from(s, c, start, i + 1)
    }
}

/// Whether `c` is an ASCII decimal digit.
pub open spec fn is_digit(c: char) -> bool {
    '0' <= c && c <= '9'
}

/// The value of a string of decimal digits.
pub open spec fn decimal_value(t: Seq<char>) -> nat
    decreases t.len(),
{
    if t.len() == 0 {
        0
    } else {
        decimal_value(t.drop_last()) * 10 + ((t.last() as int - '0' as int) as nat)
    }
}

/// Whether `t` is one octet of a dotted IPv4 address: one to three
/// decimal digits, without a leading zero unless it is `0` itself, of value
/// at most 255.
pub open spec fn is_octet_text(t: Seq<char>) -> bool {
    &&& 1 <= t.len() <= 3
    &&& forall|i: int| 0 <= i < t.len() ==> is_digit(#[trigger] t[i])
    &&& (t.len() > 1 ==> t[0] != '0')
    &&& decimal_value(t) <= 255
}

/// The four octets of a dotted-decimal IPv4 address (as `Ipv4Addr`
/// parses it), or `None` when `s` is not one.
pub open spec fn spec_ipv4(s: Seq<char>) -> Option<(u8, u8, u8, u8)> {
    let f = split_char_from(s, '.', 0, 0);
    if f.len() == 4 && is_octet_text(f[0]) && is_octet_text(f[1]) && is_octet_text(f[2]) && is_octet_text(f[3]) {
        Some((decimal_value(f[0]) as u8, decimal_value(f[1]) as u8, decimal_value(f[2]) as u8, decimal_value(f[3]) as u8))
    } else {
        None
    }
}

/// Cuts a character sequence at each `c`.
fn split_chars(cs: &Vec<char>, c: char) -> (r: Vec<Vec<char>>)
    ensures
        r@.map_values(|v: Vec<char>| v@) == split_char_from(cs@, c, 0, 0),
{
    let ghost s = cs@;
    let n = cs.len();
    let mut parts: Vec<Vec<char>> = Vec::new();
    let mut cur: Vec<char> = Vec::new();
    let mut start: usize = 0;
    let mut i: usize = 0;
    while i < n
        invariant
            cs@ == s,
            n == s.len(),
            start <= i <= n,
            cur@ == s.subrange(start as int, i as int),
            parts@.map_values(|v: Vec<char>| v@) + split_char_from(s, c, start as int, i as int) == split_char_from(s, c, 0, 0),
        decreases n - i,
    {
        if cs[i] == c {
            let ghost p0 = parts@.map_values(|v: Vec<char>| v@);
            let ghost piece = cur@;
            parts.push(cur);
            cur = Vec::new();
            proof {
                assert(parts@.map_values(|v: Vec<char>| v@) =~= p0.push(piece));
                assert(p0 + split_char_from(s, c, start as int, i as int) =~= p0.push(piece) + split_char_from(s, c, i + 1, i + 1));
            }
            i = i + 1;
            start = i;
            assert(cur@ =~= s.subrange(start as int, i as int));
        } else {
            cur.push(cs[i]);
            assert(cur@ =~= s.subrange(start as int, i + 1));
            i = i + 1;
        }
    }
    let ghost p0 = parts@.map_values(|v: Vec<char>| v@);
    let ghost piece = cur@;
    parts.push(cur);
    proof {
        assert(parts@.map_values(|v: Vec<char>| v@) =~= p0.push(piece));
        assert(p0 + split_char_from(s, c, start as int, n as int) =~= p0.push(piece));
    }
    parts
}

/// Reads one octet.
fn parse_octet(t: &Vec<char>) -> (r: Option<u8>)
    ensures
        is_octet_text(t@) ==> r == Some(decimal_value(t@) as u8),
        !is_octet_text(t@) ==> r is None,
{
    let n = t.len();
    if n == 0 || n > 3 {
        return None;
    }
    if n > 1 && t[0] == '0' {
        return None;
    }
    let mut v: u32 = 0;
    let mut i: usize = 0;
    while i < n
        invariant
            n == t@.len(),
            1 <= n <= 3,
            i <= n,
            forall|j: int| 0 <= j < i ==> is_digit(#[trigger] t@[j]),
            v == decimal_value(t@.take(i as int)),
            v < 1000,
            i == 0 ==> v == 0,
            i == 1 ==> v < 10,
            i == 2 ==> v < 100,
        decreases n - i,
    {
        let c = t[i];
        if !('0' <= c && c <= '9') {
            return None;
        }
        proof {
            assert(t@.take(i + 1).drop_last() =~= t@.take(i as int));
        }
        let d: u32 = (c as u32) - ('0' as u32);
        v = v * 10 + d;
        i = i + 1;
    }
    assert(t@.take(n as int) =~= t@);
    if v > 255 {
        return None;
    }
    Some(v as u8)
}

/// Reads a dotted-decimal IPv4 address into its four octets.
pub fn parse_ipv4(s: &str) -> (r: Option<(u8, u8, u8, u8)>)
    ensures
        r == spec_ipv4(s@),
{
    let cs = str_chars(s);
    let fields = split_chars(&cs, '.');
    proof {
        assert(fields@.map_values(|v: Vec<char>| v@).len() == fields@.len());
    }
    if fields.len() != 4 {
        return None;
    }
    proof {
        assert(fields@.map_values(|v: Vec<char>| v@)[0] == fields@[0]@);
        assert(fields@.map_values(|v: Vec<char>| v@)[1] == fields@[1]@);
        assert(fields@.map_values(|v: Vec<char>| v@)[2] == fields@[2]@);
        assert(fields@.map_values(|v: Vec<char>| v@)[3] == fields@[3]@);
    }
    let a = parse_octet(&fields[0]);
    let b = parse_octet(&fields[1]);
    let c = parse_octet(&fields[2]);
    let d = parse_octet(&fields[3]);
    match (a, b, c, d) {
        (Some(a), Some(b), Some(c), Some(d)) => Some((a, b, c, d)),
        _ => None,
    }
}

/// The dotted text of four octets.
pub open spec fn dotted(a: u8, b: u8, c: u8, d: u8) -> Seq<char> {
    nat_decimal(a as nat) + "."@ + nat_decimal(b as nat) + "."@ + nat_decimal(c as nat) + "."@ + nat_decimal(d as nat)
}

/// Writes four octets in dotted form.
fn dotted_text(a: u8, b: u8, c: u8, d: u8) -> (r: String)
    ensures
        r@ == dotted(a, b, c, d),
{
    let mut s = String::new();
    push_u64(&mut s, a as u64);
    s.append(".");
    push_u64(&mut s, b as u64);
    s.append(".");
    push_u64(&mut s, c as u64);
    s.append(".");
    push_u64(&mut s, d as u64);
    s
}

/// The SoC id of an address: the last octet rounded down to a multiple of
/// ten, or an error naming the address when it is not one.
pub open spec fn spec_soc_id(ip: Seq<char>) -> Result<Seq<char>, Seq<char>> {
    match spec_ipv4(ip) {
        Some((a, b, c, d)) => Ok(dotted(a, b, c, ((d / 10) * 10) as u8)),
        None => Err("Invalid IP address: "@ + ip),
    }
}

/// The board id of an address: the last octet rounded down to a multiple
/// of a hundred, or an error naming the address when it is not one.
pub open spec fn spec_board_id(ip: Seq<char>) -> Result<Seq<char>, Seq<char>> {
    match spec_ipv4(ip) {
        Some((a, b, c, d)) => Ok(dotted(a, b, c, ((d / 100) * 100) as u8)),
        None => Err("Invalid IP address: "@ + ip),
    }
}

/// Returns the SoC id of an address.
pub fn generate_soc_id(ip: &str) -> (r: Result<String, String>)
    ensures
        match spec_soc_id(ip@) {
            Ok(id) => r matches Ok(s) && s@ == id,
            Err(e) => r matches Err(m) && m@ == e,
        },
{
    match parse_ipv4(ip) {
        Some((a, b, c, d)) => Ok(dotted_text(a, b, c, (d / 10) * 10)),
        None => Err(concat2("Invalid IP address: ", ip)),
    }
}

/// Returns the board id of an address.
pub fn generate_board_id(ip: &str) -> (r: Result<String, String>)
    ensures
        match spec_board_id(ip@) {
            Ok(id) => r matches Ok(s) && s@ == id,
            Err(e) => r matches Err(m) && m@ == e,
        },
{
    match parse_ipv4(ip) {
        Some((a, b, c, d)) => Ok(dotted_text(a, b, c, (d / 100) * 100)),
        None => Err(concat2("Invalid IP address: ", ip)),
    }
}

/// A decimal digit character is an ASCII digit, other than `.`, worth its
/// value.
proof fn lemma_digit(d: nat)
    requires
        d < 10,
    ensures
        is_digit(digit_char(d)),
        digit_char(d) != '.',
        digit_char(d) as int - '0' as int == d,
        d > 0 ==> digit_char(d) != '0',
{
    let b: u8 = (48 + d) as u8;
    assert(b == 48 + d);
    assert(digit_char(d) == b as char);
    assert((b as char) as int == b as int);
}

/// The decimal text of an octet is an octet text worth the octet, and
/// holds no `.`.
proof fn lemma_octet_decimal(n: u8)
    ensures
        is_octet_text(nat_decimal(n as nat)),
        decimal_value(nat_decimal(n as nat)) == n,
        forall|i: int| 0 <= i < nat_decimal(n as nat).len() ==> #[trigger] nat_decimal(n as nat)[i] != '.',
{
    let t = nat_decimal(n as nat);
    reveal_with_fuel(nat_decimal, 3);
    reveal_with_fuel(decimal_value, 4);
    if n < 10 {
        lemma_digit(n as nat);
        assert(t =~= seq![digit_char(n as nat)]);
        assert(t.drop_last() =~= Seq::<char>::empty());
    } else if n < 100 {
        lemma_digit((n / 10) as nat);
        lemma_digit((n % 10) as nat);
        assert(t =~= seq![digit_char((n / 10) as nat), digit_char((n % 10) as nat)]);
        assert(t.drop_last() =~= seq![digit_char((n / 10) as nat)]);
        assert(t.drop_last().drop_last() =~= Seq::<char>::empty());
    } else {
        lemma_digit((n / 100) as nat);
        lemma_digit(((n / 10) % 10) as nat);
        lemma_digit((n % 10) as nat);
        assert((n / 10) / 10 == n / 100);
        assert(t =~= seq![digit_char((n / 100) as nat), digit_char(((n / 10) % 10) as nat), digit_char((n % 10) as nat)]);
        assert(t.drop_last() =~= seq![digit_char((n / 100) as nat), digit_char(((n / 10) % 10) as nat)]);
        assert(t.drop_last().drop_last() =~= seq![digit_char((n / 100) as nat)]);
        assert(t.drop_last().drop_last().drop_last() =~= Seq::<char>::empty());
        assert(n == (n / 100) * 100 + ((n / 10) % 10) * 10 + n % 10);
    }
}

/// Scanning over a stretch without separators changes nothing.
proof fn lemma_split_skip(s: Seq<char>, c: char, start: int, i: int, j: int)
    requires
        0 <= start <= i <= j <= s.len(),
        forall|k: int| i <= k < j ==> s[k] != c,
    ensures
        split_char_from(s, c, start, i) == split_char_from(s, c, start, j),
    decreases j - i,
{
    if i < j {
        lemma_split_skip(s, c, start, i + 1, j);
    }
}

/// Formatting four octets and reading them back gives the same octets.
pub proof fn law_dotted_round_trip(a: u8, b: u8, c: u8, d: u8)
    ensures
        spec_ipv4(dotted(a, b, c, d)) == Some((a, b, c, d)),
{
    lemma_octet_decimal(a);
    lemma_octet_decimal(b);
    lemma_octet_decimal(c);
    lemma_octet_decimal(d);
    let (ta, tb, tc, td) = (nat_decimal(a as nat), nat_decimal(b as nat), nat_decimal(c as nat), nat_decimal(d as nat));
    reveal_strlit(".");
    let s = dotted(a, b, c, d);
    assert(s =~= ta + seq!['.'] + tb + seq!['.'] + tc + seq!['.'] + td);
    let p1 = ta.len() as int;
    let p2 = p1 + 1 + tb.len();
    let p3 = p2 + 1 + tc.len();
    assert forall|k: int| 0 <= k < p1 implies s[k] != '.' by {
        assert(s[k] == ta[k]);
    }
    assert forall|k: int| p1 + 1 <= k < p2 implies s[k] != '.' by {
        assert(s[k] == tb[k - p1 - 1]);
    }
    assert forall|k: int| p2 + 1 <= k < p3 implies s[k] != '.' by {
        assert(s[k] == tc[k - p2 - 1]);
    }
    assert forall|k: int| p3 + 1 <= k < s.len() implies s[k] != '.' by {
        assert(s[k] == td[k - p3 - 1]);
    }
    lemma_split_skip(s, '.', 0, 0, p1);
    lemma_split_skip(s, '.', p1 + 1, p1 + 1, p2);
    lemma_split_skip(s, '.', p2 + 1, p2 + 1, p3);
    lemma_split_skip(s, '.', p3 + 1, p3 + 1, s.len() as int);
    assert(s.subrange(0, p1) =~= ta);
    assert(s.subrange(p1 + 1, p2) =~= tb);
    assert(s.subrange(p2 + 1, p3) =~= tc);
    assert(s.subrange(p3 + 1, s.len() as int) =~= td);
    assert(split_char_from(s, '.', 0, 0) =~= seq![ta, tb, tc, td]);
}

/// Every SoC lies on the board of the addresses it groups: the board id of
/// an address's SoC id is the address's board id.
pub proof fn law_soc_on_its_board(ip: Seq<char>)
    requires
        spec_ipv4(ip) is Some,
    ensures
        spec_board_id(spec_soc_id(ip)->Ok_0) == spec_board_id(ip),
{
    let (a, b, c, d) = spec_ipv4(ip)->0;
    let d2: u8 = ((d / 10) * 10) as u8;
    law_dotted_round_trip(a, b, c, d2);
    assert(((d2 / 100) * 100) as u8 == ((d / 100) * 100) as u8) by (bit_vector)
        requires
            d2 == ((d / 10) * 10) as u8;
}

/// The board of an address is the address with its last octet rounded down
/// to a hundred: the board id reads back as an address with the same first
/// three octets and a last octet that is a multiple of 100, at most the
/// address's own and less than 100 below it.
pub proof fn law_board_groups_by_hundreds(ip: Seq<char>)
    requires
        spec_ipv4(ip) is Some,
    ensures
        ({
            let (a, b, c, d) = spec_ipv4(ip)->0;
            &&& spec_board_id(ip) is Ok
            &&& spec_ipv4(spec_board_id(ip)->Ok_0) matches Some((a2, b2, c2, e)) && a2 == a && b2 == b && c2 == c
                && e % 100 == 0 && e <= d && d < e + 100
        }),
{
    let (a, b, c, d) = spec_ipv4(ip)->0;
    let e: u8 = ((d / 100) * 100) as u8;
    law_dotted_round_trip(a, b, c, e);
    assert(e % 100 == 0 && e <= d && d < e + 100) by (bit_vector)
        requires
            e == ((d / 100) * 100) as u8;
}

/// The SoC of an address is the address with its last octet rounded down
/// to ten: the SoC id reads back as an address with the same first three
/// octets and a last octet that is a multiple of 10, at most the address's
/// own and less than 10 below it.
pub proof fn law_soc_groups_by_tens(ip: Seq<char>)
    requires
        spec_ipv4(ip) is Some,
    ensures
        ({
            let (a, b, c, d) = spec_ipv4(ip)->0;
            &&& spec_soc_id(ip) is Ok
            &&& spec_ipv4(spec_soc_id(ip)->Ok_0) matches Some((a2, b2, c2, e)) && a2 == a && b2 == b && c2 == c
                && e % 10 == 0 && e <= d && d < e + 10
        }),
{
    let (a, b, c, d) = spec_ipv4(ip)->0;
    let e: u8 = ((d / 10) * 10) as u8;
    law_dotted_round_trip(a, b, c, e);
    assert(e % 10 == 0 && e <= d && d < e + 10) by (bit_vector)
        requires
            e == ((d / 10) * 10) as u8;
}

/// Two addresses are on the same board exactly when they share their first
/// three octets and the hundreds of their last one.
pub proof fn law_same_board(ip1: Seq<char>, ip2: Seq<char>)
    requires
        spec_ipv4(ip1) is Some,
        spec_ipv4(ip2) is Some,
    ensures
        ({
            let (a1, b1, c1, d1) = spec_ipv4(ip1)->0;
            let (a2, b2, c2, d2) = spec_ipv4(ip2)->0;
            spec_board_id(ip1) == spec_board_id(ip2) <==> (a1 == a2 && b1 == b2 && c1 == c2 && d1 / 100 == d2 / 100)
        }),
{
    let (a1, b1, c1, d1) = spec_ipv4(ip1)->0;
    let (a2, b2, c2, d2) = spec_ipv4(ip2)->0;
    let e1: u8 = ((d1 / 100) * 100) as u8;
    let e2: u8 = ((d2 / 100) * 100) as u8;
    law_dotted_round_trip(a1, b1, c1, e1);
    law_dotted_round_trip(a2, b2, c2, e2);
    assert(e1 == e2 <==> d1 / 100 == d2 / 100) by (bit_vector)
        requires
            e1 == ((d1 / 100) * 100) as u8,
            e2 == ((d2 / 100) * 100) as u8;
}

} // verus!
