//! Internet addresses as plain values, and their text forms.

use vstd::prelude::*;
use vstd::string::StringExecFns;

verus! {

/// The character of a decimal digit.
pub open spec fn digit_char(d: nat) -> char {
    if d == 0 {
        '0'
    } else if d == 1 {
        '1'
    } else if d == 2 {
        '2'
    } else if d == 3 {
        '3'
    } else if d == 4 {
        '4'
    } else if d == 5 {
        '5'
    } else if d == 6 {
        '6'
    } else if d == 7 {
        '7'
    } else if d == 8 {
        '8'
    } else {
        '9'
    }
}

/// A number in decimal, most significant digit first, without leading zeros.
pub open spec fn decimal(n: nat) -> Seq<char>
    decreases n,
{
    if n < 10 {
        seq![digit_char(n)]
    } else {
        decimal(n / 10).push(digit_char(n % 10))
    }
}

fn digit_str(d: u16) -> (r: &'static str)
    requires
        d < 10,
    ensures
        r@ == seq![digit_char(d as nat)],
{
    proof {
        reveal_strlit("0");
        reveal_strlit("1");
        reveal_strlit("2");
        reveal_strlit("3");
        reveal_strlit("4");
        reveal_strlit("5");
        reveal_strlit("6");
        reveal_strlit("7");
        reveal_strlit("8");
        reveal_strlit("9");
    }
    if d == 0 {
        "0"
    } else if d == 1 {
        "1"
    } else if d == 2 {
        "2"
    } else if d == 3 {
        "3"
    } else if d == 4 {
        "4"
    } else if d == 5 {
        "5"
    } else if d == 6 {
        "6"
    } else if d == 7 {
        "7"
    } else if d == 8 {
        "8"
    } else {
        "9"
    }
}

/// Writes a number in decimal.
pub fn format_decimal(n: u16) -> (r: String)
    ensures
        r@ == decimal(n as nat),
    decreases n,
{
    if n < 10 {
        String::from_str(digit_str(n))
    } else {
        let mut text = format_decimal(n / 10);
        text.append(digit_str(n % 10));
        text
    }
}

/// An IPv4 address: its four octets, first octet first.
#[derive(Debug, Clone, Copy, PartialEq, Eq, Structural, Hash)]
pub struct Ipv4Address {
    pub a: u8,
    pub b: u8,
    pub c: u8,
    pub d: u8,
}

impl Ipv4Address {
    /// The address in dotted-decimal form, as in `10.0.0.5`.
    pub open spec fn dotted(self) -> Seq<char> {
        decimal(self.a as nat) + seq!['.'] + decimal(self.b as nat) + seq!['.'] + decimal(
            self.c as nat,
        ) + seq!['.'] + decimal(self.d as nat)
    }

    /// The address made of four octets.
    pub fn new(a: u8, b: u8, c: u8, d: u8) -> (r: Self)
        ensures
            r == (Ipv4Address { a, b, c, d }),
    {
        Ipv4Address { a, b, c, d }
    }

    /// Writes the address in dotted-decimal form.
    pub fn to_text(&self) -> (r: String)
        ensures
            r@ == self.dotted(),
    {
        proof {
            reveal_strlit(".");
        }
        let mut text = format_decimal(self.a as u16);
        text.append(".");
        text.append(format_decimal(self.b as u16).as_str());
        text.append(".");
        text.append(format_decimal(self.c as u16).as_str());
        text.append(".");
        text.append(format_decimal(self.d as u16).as_str());
        text
    }
}

/// The value of a decimal digit; nothing for another character.
pub open spec fn digit_of(c: char) -> Option<nat> {
    if c == '0' {
        Some(0)
    } else if c == '1' {
        Some(1)
    } else if c == '2' {
        Some(2)
    } else if c == '3' {
        Some(3)
    } else if c == '4' {
        Some(4)
    } else if c == '5' {
        Some(5)
    } else if c == '6' {
        Some(6)
    } else if c == '7' {
        Some(7)
    } else if c == '8' {
        Some(8)
    } else if c == '9' {
        Some(9)
    } else {
        None
    }
}

/// Reads a text of numbers up to 255 that dots separate: the numbers before
/// the last dot, and the number after it. Nothing where the text holds
/// another character or too large a number.
pub open spec fn scan(text: Seq<char>) -> Option<(Seq<u8>, nat)>
    decreases text.len(),
{
    if text.len() == 0 {
        Some((Seq::empty(), 0))
    } else {
        match scan(text.drop_last()) {
            None => None,
            Some((octets, current)) => {
                if text.last() == '.' {
                    Some((octets.push(current as u8), 0))
                } else {
                    match digit_of(text.last()) {
                        None => None,
                        Some(d) => if current * 10 + d <= 255 {
                            Some((octets, current * 10 + d))
                        } else {
                            None
                        },
                    }
                }
            },
        }
    }
}

/// A text that cannot be read from some point on cannot be read at all.
proof fn lemma_scan_fails_for_good(text: Seq<char>, n: int)
    requires
        0 <= n <= text.len(),
        scan(text.take(n)) is None,
    ensures
        scan(text) is None,
    decreases text.len() - n,
{
    if n < text.len() {
        assert(text.take(n + 1).drop_last() =~= text.take(n));
        lemma_scan_fails_for_good(text, n + 1);
    } else {
        assert(text.take(n) =~= text);
    }
}

/// Reading goes through a number in decimal, and ends with its value.
proof fn lemma_scan_decimal(text: Seq<char>, octets: Seq<u8>, n: nat)
    requires
        scan(text) == Some((octets, 0nat)),
        n <= 255,
    ensures
        scan(text + decimal(n)) == Some((octets, n)),
    decreases n,
{
    if n < 10 {
        let whole = text + decimal(n);
        assert(whole.drop_last() =~= text);
        assert(whole.last() == digit_char(n));
    } else {
        let whole = text + decimal(n);
        lemma_scan_decimal(text, octets, n / 10);
        assert(whole.drop_last() =~= text + decimal(n / 10));
        assert(whole.last() == digit_char(n % 10));
    }
}

/// Reading goes through a dot, and begins a new number after it.
proof fn lemma_scan_dot(text: Seq<char>, octets: Seq<u8>, current: nat)
    requires
        scan(text) == Some((octets, current)),
    ensures
        scan(text + seq!['.']) == Some((octets.push(current as u8), 0nat)),
{
    let whole = text + seq!['.'];
    assert(whole.drop_last() =~= text);
    assert(whole.last() == '.');
}

/// Reading an address in dotted-decimal form gives its four octets.
pub proof fn lemma_scan_dotted(address: Ipv4Address)
    ensures
        scan(address.dotted()) == Some((seq![address.a, address.b, address.c], address.d as nat)),
{
    let none = Seq::<char>::empty();
    let o0 = Seq::<u8>::empty();
    let o1 = o0.push(address.a);
    let o2 = o1.push(address.b);
    let o3 = o2.push(address.c);
    let t1 = none + decimal(address.a as nat);
    lemma_scan_decimal(none, o0, address.a as nat);
    let t2 = t1 + seq!['.'];
    lemma_scan_dot(t1, o0, address.a as nat);
    let t3 = t2 + decimal(address.b as nat);
    lemma_scan_decimal(t2, o1, address.b as nat);
    let t4 = t3 + seq!['.'];
    lemma_scan_dot(t3, o1, address.b as nat);
    let t5 = t4 + decimal(address.c as nat);
    lemma_scan_decimal(t4, o2, address.c as nat);
    let t6 = t5 + seq!['.'];
    lemma_scan_dot(t5, o2, address.c as nat);
    let t7 = t6 + decimal(address.d as nat);
    lemma_scan_decimal(t6, o3, address.d as nat);
    assert(t1 =~= decimal(address.a as nat));
    assert(t7 =~= address.dotted());
    assert(o3 =~= seq![address.a, address.b, address.c]);
}

/// The dotted-decimal form tells addresses apart.
pub proof fn law_dotted_is_injective(first: Ipv4Address, second: Ipv4Address)
    requires
        first.dotted() == second.dotted(),
    ensures
        first == second,
{
    lemma_scan_dotted(first);
    lemma_scan_dotted(second);
    let one = seq![first.a, first.b, first.c];
    let two = seq![second.a, second.b, second.c];
    assert(one[0] == two[0] && one[1] == two[1] && one[2] == two[2]);
}

fn digit_value(c: char) -> (r: Option<u16>)
    ensures
        match r {
            Some(d) => digit_of(c) == Some(d as nat),
            None => digit_of(c) is None,
        },
{
    if c == '0' {
        Some(0)
    } else if c == '1' {
        Some(1)
    } else if c == '2' {
        Some(2)
    } else if c == '3' {
        Some(3)
    } else if c == '4' {
        Some(4)
    } else if c == '5' {
        Some(5)
    } else if c == '6' {
        Some(6)
    } else if c == '7' {
        Some(7)
    } else if c == '8' {
        Some(8)
    } else if c == '9' {
        Some(9)
    } else {
        None
    }
}

/// Reads an address in dotted-decimal form. The only text that is read as
/// an address is the one that `to_text` writes for it: four numbers up to
/// 255, without sign, space or leading zero, with a dot between them.
pub fn parse_ipv4(text: &str) -> (r: Option<Ipv4Address>)
    ensures
        r matches Some(address) ==> text@ == address.dotted(),
        forall|address: Ipv4Address| text@ == #[trigger] address.dotted() ==> r == Some(address),
{
    let n = text.unicode_len();
    let mut octets: Vec<u8> = Vec::new();
    let mut current: u16 = 0;
    let mut i: usize = 0;
    while i < n
        invariant
            i <= n == text@.len(),
            current <= 255,
            scan(text@.take(i as int)) == Some((octets@, current as nat)),
        decreases n - i,
    {
        let c = text.get_char(i);
        proof {
            assert(text@.take(i + 1).drop_last() =~= text@.take(i as int));
            assert(text@.take(i + 1).last() == c);
        }
        let mut readable = true;
        if c == '.' {
            octets.push(current as u8);
            current = 0;
        } else {
            match digit_value(c) {
                Some(d) => {
                    if current * 10 + d <= 255 {
                        current = current * 10 + d;
                    } else {
                        readable = false;
                    }
                },
                None => {
                    readable = false;
                },
            }
        }
        if !readable {
            proof {
                lemma_scan_fails_for_good(text@, i + 1);
                assert forall|address: Ipv4Address| text@ != #[trigger] address.dotted() by {
                    lemma_scan_dotted(address);
                }
            }
            return None;
        }
        i += 1;
    }
    proof {
        assert(text@.take(n as int) =~= text@);
        assert forall|address: Ipv4Address| text@ == #[trigger] address.dotted() implies octets@
            == seq![address.a, address.b, address.c] && current == address.d by {
            lemma_scan_dotted(address);
        }
    }
    if octets.len() != 3 {
        return None;
    }
    let candidate = Ipv4Address::new(octets[0], octets[1], octets[2], current as u8);
    if candidate.to_text() == String::from_str(text) {
        Some(candidate)
    } else {
        None
    }
}

/// An IPv6 address: its 128 bits in network order, as two halves.
#[derive(Debug, Clone, Copy, PartialEq, Eq, Structural, Hash)]
pub struct Ipv6Address {
    pub high: u64,
    pub low: u64,
}

/// An address of either family.
#[derive(Debug, Clone, Copy, PartialEq, Eq, Structural, Hash)]
pub enum IpAddress {
    V4(Ipv4Address),
    V6(Ipv6Address),
}

/// An address and a port.
#[derive(Debug, Clone, Copy, PartialEq, Eq, Structural, Hash)]
pub struct SocketAddress {
    pub ip: IpAddress,
    pub port: u16,
}

impl SocketAddress {
    /// The socket address made of an address and a port.
    pub fn new(ip: IpAddress, port: u16) -> (r: Self)
        ensures
            r == (SocketAddress { ip, port }),
    {
        SocketAddress { ip, port }
    }

    /// The combined `ip:port` form of an IPv4 address and a port.
    pub open spec fn joined(ip: Ipv4Address, port: u16) -> Seq<char> {
        ip.dotted() + seq![':'] + decimal(port as nat)
    }
}

/// Writes the combined `ip:port` form of an IPv4 address and a port.
pub fn format_endpoint(ip: &Ipv4Address, port: u16) -> (r: String)
    ensures
        r@ == SocketAddress::joined(*ip, port),
{
    proof {
        reveal_strlit(":");
    }
    let mut text = ip.to_text();
    text.append(":");
    text.append(format_decimal(port).as_str());
    text
}

} // verus!
