//! Link-layer and IPv4 addresses, and how they are written.

use vstd::prelude::*;
use vstd::string::StringExecFns;

verus! {

/// A 48-bit Ethernet address.
#[derive(Clone, Copy, Debug, PartialEq, Eq)]
pub struct MacAddress {
    pub octets: [u8; 6],
}

/// An IPv4 address, most significant octet first.
#[derive(Clone, Copy, Debug, PartialEq, Eq)]
pub struct Ipv4Address {
    pub octets: [u8; 4],
}

/// The sixteen hexadecimal digits, in lower case.
pub open spec fn hex_digits() -> Seq<char> {
    seq!['0', '1', '2', '3', '4', '5', '6', '7', '8', '9', 'a', 'b', 'c', 'd', 'e', 'f']
}

/// An octet as two lower-case hexadecimal digits.
pub open spec fn hex_octet(octet: u8) -> Seq<char> {
    seq![hex_digits()[octet as int / 16], hex_digits()[octet as int % 16]]
}

/// Six octets in the usual notation of a MAC address: two lower-case
/// hexadecimal digits each, with a colon between neighbours.
pub open spec fn mac_text(octets: Seq<u8>) -> Seq<char>
    recommends
        octets.len() == 6,
{
    hex_octet(octets[0]) + seq![':'] + hex_octet(octets[1]) + seq![':'] + hex_octet(octets[2])
        + seq![':'] + hex_octet(octets[3]) + seq![':'] + hex_octet(octets[4]) + seq![':']
        + hex_octet(octets[5])
}

/// The 48-bit number that six octets spell, the first octet being the most
/// significant.
pub open spec fn mac_number(octets: Seq<u8>) -> int
    recommends
        octets.len() == 6,
{
    ((((octets[0] as int * 256 + octets[1] as int) * 256 + octets[2] as int) * 256
        + octets[3] as int) * 256 + octets[4] as int) * 256 + octets[5] as int
}

/// The 32-bit number that four octets spell, the first octet being the most
/// significant.
pub open spec fn ipv4_number(octets: Seq<u8>) -> int
    recommends
        octets.len() == 4,
{
    ((octets[0] as int * 256 + octets[1] as int) * 256 + octets[2] as int) * 256
        + octets[3] as int
}

/// The six octets of a 48-bit number, the most significant first. Bits
/// above the 48th do not count.
pub open spec fn mac_octets(number: u64) -> Seq<u8> {
    seq![
        (number / 0x100_0000_0000 % 256) as u8,
        (number / 0x1_0000_0000 % 256) as u8,
        (number / 0x100_0000 % 256) as u8,
        (number / 0x1_0000 % 256) as u8,
        (number / 0x100 % 256) as u8,
        (number % 256) as u8,
    ]
}

/// The four octets of a 32-bit number, the most significant first.
pub open spec fn ipv4_octets(number: u32) -> Seq<u8> {
    seq![
        (number / 0x100_0000) as u8,
        (number / 0x1_0000 % 256) as u8,
        (number / 0x100 % 256) as u8,
        (number % 256) as u8,
    ]
}

/// The ten decimal digits.
pub open spec fn decimal_digits() -> Seq<char> {
    seq!['0', '1', '2', '3', '4', '5', '6', '7', '8', '9']
}

/// An octet in decimal, without leading zeros.
pub open spec fn decimal_octet(octet: u8) -> Seq<char> {
    if octet >= 100 {
        seq![
            decimal_digits()[octet as int / 100],
            decimal_digits()[octet as int / 10 % 10],
            decimal_digits()[octet as int % 10],
        ]
    } else if octet >= 10 {
        seq![decimal_digits()[octet as int / 10], decimal_digits()[octet as int % 10]]
    } else {
        seq![decimal_digits()[octet as int]]
    }
}

/// Four octets in dotted-decimal notation.
pub open spec fn dotted_decimal(octets: Seq<u8>) -> Seq<char>
    recommends
        octets.len() == 4,
{
    decimal_octet(octets[0]) + seq!['.'] + decimal_octet(octets[1]) + seq!['.'] + decimal_octet(
        octets[2],
    ) + seq!['.'] + decimal_octet(octets[3])
}

/// Writes a MAC address the way `pnet`'s `MacAddr` displays itself: its
/// `Display` impl writes each of the six octets with `{:02x}` and puts a
/// colon between them.
#[verifier::external_body]
fn display_mac(a: u8, b: u8, c: u8, d: u8, e: u8, f: u8) -> (text: String)
    ensures
        text@ == mac_text(seq![a, b, c, d, e, f]),
{
    format!("{}", pnet::util::MacAddr::new(a, b, c, d, e, f))
}

fn decimal_digit(digit: u8) -> (text: &'static str)
    requires
        digit < 10,
    ensures
        text@ == seq![decimal_digits()[digit as int]],
{
    proof {
        reveal_strlit("0");
        reveal_strlit("1");
        reveal_strlit("2");
        reveal_strlit("3");
        reveal_strlit("4");
        reveal_strlit("5");
        reveal_strlit("6");
        reveal_strlit("7");
        reveal_strlit("8");
        reveal_strlit("9");
    }
    let text = match digit {
        0 => "0",
        1 => "1",
        2 => "2",
        3 => "3",
        4 => "4",
        5 => "5",
        6 => "6",
        7 => "7",
        8 => "8",
        _ => "9",
    };
    assert(text@ =~= seq![decimal_digits()[digit as int]]);
    text
}

fn append_decimal_octet(text: &mut String, octet: u8)
    ensures
        final(text)@ == old(text)@ + decimal_octet(octet),
{
    if octet >= 100 {
        text.append(decimal_digit(octet / 100));
    }
    if octet >= 10 {
        text.append(decimal_digit(octet / 10 % 10));
    }
    text.append(decimal_digit(octet % 10));
    assert(text@ =~= old(text)@ + decimal_octet(octet));
}

impl MacAddress {
    /// The six octets of the address.
    pub open spec fn spec_octets(&self) -> Seq<u8> {
        self.octets@
    }

    /// The address as a number below 2^48; two addresses are the same
    /// exactly when their numbers are.
    pub open spec fn spec_to_u64(&self) -> u64 {
        mac_number(self.octets@) as u64
    }

    pub fn new(a: u8, b: u8, c: u8, d: u8, e: u8, f: u8) -> (mac: Self)
        ensures
            mac.octets@ == seq![a, b, c, d, e, f],
    {
        let mac = MacAddress { octets: [a, b, c, d, e, f] };
        assert(mac.octets@ =~= seq![a, b, c, d, e, f]);
        mac
    }

    /// The broadcast address `ff:ff:ff:ff:ff:ff`.
    pub fn broadcast() -> (mac: Self)
        ensures
            mac.octets@ == seq![255u8, 255u8, 255u8, 255u8, 255u8, 255u8],
    {
        MacAddress::new(255, 255, 255, 255, 255, 255)
    }

    /// The address as a number: the key under which tables hold it.
    pub fn to_u64(&self) -> (number: u64)
        ensures
            number == mac_number(self.octets@),
            number == self.spec_to_u64(),
            number < 0x1_0000_0000_0000,
    {
        let o = &self.octets;
        ((((o[0] as u64 * 256 + o[1] as u64) * 256 + o[2] as u64) * 256 + o[3] as u64) * 256
            + o[4] as u64) * 256 + o[5] as u64
    }

    /// The address that the lower 48 bits of a number stand for.
    pub fn from_u64(number: u64) -> (mac: Self)
        ensures
            mac.octets@ == mac_octets(number),
            number < 0x1_0000_0000_0000 ==> mac.spec_to_u64() == number,
    {
        let mac = MacAddress::new(
            (number / 0x100_0000_0000 % 256) as u8,
            (number / 0x1_0000_0000 % 256) as u8,
            (number / 0x100_0000 % 256) as u8,
            (number / 0x1_0000 % 256) as u8,
            (number / 0x100 % 256) as u8,
            (number % 256) as u8,
        );
        mac
    }

    /// The address in the usual notation, such as `7c:2e:0d:00:00:01`.
    pub fn to_string(&self) -> (text: String)
        ensures
            text@ == mac_text(self.octets@),
    {
        let o = &self.octets;
        assert(self.octets@ =~= seq![o[0], o[1], o[2], o[3], o[4], o[5]]);
        display_mac(o[0], o[1], o[2], o[3], o[4], o[5])
    }
}

impl Ipv4Address {
    /// The address as a 32-bit number, the first octet being the most
    /// significant.
    pub open spec fn spec_to_u32(&self) -> u32 {
        ipv4_number(self.octets@) as u32
    }

    pub fn new(a: u8, b: u8, c: u8, d: u8) -> (address: Self)
        ensures
            address.octets@ == seq![a, b, c, d],
    {
        let address = Ipv4Address { octets: [a, b, c, d] };
        assert(address.octets@ =~= seq![a, b, c, d]);
        address
    }

    /// The address as a 32-bit number.
    pub fn to_u32(&self) -> (number: u32)
        ensures
            number == ipv4_number(self.octets@),
            number == self.spec_to_u32(),
    {
        let o = &self.octets;
        ((o[0] as u32 * 256 + o[1] as u32) * 256 + o[2] as u32) * 256 + o[3] as u32
    }

    /// The address that a 32-bit number stands for.
    pub fn from_u32(number: u32) -> (address: Self)
        ensures
            address.octets@ == ipv4_octets(number),
            address.spec_to_u32() == number,
    {
        Ipv4Address::new(
            (number / 0x100_0000) as u8,
            (number / 0x1_0000 % 256) as u8,
            (number / 0x100 % 256) as u8,
            (number % 256) as u8,
        )
    }

    /// The address in dotted-decimal notation, such as `10.0.0.1`.
    pub fn to_string(&self) -> (text: String)
        ensures
            text@ == dotted_decimal(self.octets@),
    {
        proof {
            reveal_strlit(".");
        }
        let o = &self.octets;
        let mut text = String::new();
        append_decimal_octet(&mut text, o[0]);
        text.append(".");
        append_decimal_octet(&mut text, o[1]);
        text.append(".");
        append_decimal_octet(&mut text, o[2]);
        text.append(".");
        append_decimal_octet(&mut text, o[3]);
        assert(text@ =~= dotted_decimal(self.octets@));
        text
    }
}

/// The octets of an address are those of its number.
pub proof fn lemma_ipv4_octets_of_number(address: Ipv4Address)
    ensures
        ipv4_octets(address.spec_to_u32()) == address.octets@,
{
    assert(ipv4_octets(address.spec_to_u32()) =~= address.octets@);
}

/// Whether a number is the number of a MAC address: below 2^48.
pub open spec fn is_mac_number(number: u64) -> bool {
    number < 0x1_0000_0000_0000
}

/// A hexadecimal digit stands for one value only.
pub proof fn lemma_hex_digit_injective(a: int, b: int)
    requires
        0 <= a < 16,
        0 <= b < 16,
        hex_digits()[a] == hex_digits()[b],
    ensures
        a == b,
{
    let digits = hex_digits();
    assert(digits[0] == '0' && digits[1] == '1' && digits[2] == '2' && digits[3] == '3');
    assert(digits[4] == '4' && digits[5] == '5' && digits[6] == '6' && digits[7] == '7');
    assert(digits[8] == '8' && digits[9] == '9' && digits[10] == 'a' && digits[11] == 'b');
    assert(digits[12] == 'c' && digits[13] == 'd' && digits[14] == 'e' && digits[15] == 'f');
}

/// Two octets that are written alike are the same octet.
pub proof fn lemma_hex_octet_injective(a: u8, b: u8)
    requires
        hex_octet(a) == hex_octet(b),
    ensures
        a == b,
{
    assert(hex_octet(a)[0] == hex_digits()[a as int / 16]);
    assert(hex_octet(b)[0] == hex_digits()[b as int / 16]);
    assert(hex_octet(a)[1] == hex_digits()[a as int % 16]);
    assert(hex_octet(b)[1] == hex_digits()[b as int % 16]);
    lemma_hex_digit_injective(a as int / 16, b as int / 16);
    lemma_hex_digit_injective(a as int % 16, b as int % 16);
}

/// Two MAC addresses that are written alike have the same octets.
pub proof fn lemma_mac_text_injective(a: Seq<u8>, b: Seq<u8>)
    requires
        a.len() == 6,
        b.len() == 6,
        mac_text(a) == mac_text(b),
    ensures
        a == b,
{
    let colon = seq![':'];
    assert forall|k: int| 0 <= k < 6 implies a[k] == b[k] by {
        let left = mac_text(a);
        let right = mac_text(b);
        assert(left.len() == 17);
        assert(left.subrange(3 * k, 3 * k + 2) =~= hex_octet(a[k]));
        assert(right.subrange(3 * k, 3 * k + 2) =~= hex_octet(b[k]));
        lemma_hex_octet_injective(a[k], b[k]);
    }
    assert(a =~= b);
}

/// The octets of the number of a MAC address spell that number.
pub proof fn lemma_mac_octets_spell_number(number: u64)
    requires
        is_mac_number(number),
    ensures
        mac_number(mac_octets(number)) == number,
{
    let n = number as int;
    let n1 = n / 0x100;
    let n2 = n / 0x1_0000;
    let n3 = n / 0x100_0000;
    let n4 = n / 0x1_0000_0000;
    let n5 = n / 0x100_0000_0000;
    assert(n == n1 * 256 + n % 256);
    assert(n2 == n1 / 256 && n1 == n2 * 256 + n1 % 256);
    assert(n3 == n2 / 256 && n2 == n3 * 256 + n2 % 256);
    assert(n4 == n3 / 256 && n3 == n4 * 256 + n3 % 256);
    assert(n5 == n4 / 256 && n4 == n5 * 256 + n4 % 256);
    assert(n5 < 256);
    let octets = mac_octets(number);
    assert(octets[0] == n5 % 256 && octets[1] == n4 % 256 && octets[2] == n3 % 256);
    assert(octets[3] == n2 % 256 && octets[4] == n1 % 256 && octets[5] == n % 256);
}

/// Two numbers of MAC addresses that are written alike are the same
/// number.
pub proof fn lemma_mac_number_text_injective(a: u64, b: u64)
    requires
        is_mac_number(a),
        is_mac_number(b),
        mac_text(mac_octets(a)) == mac_text(mac_octets(b)),
    ensures
        a == b,
{
    lemma_mac_text_injective(mac_octets(a), mac_octets(b));
    lemma_mac_octets_spell_number(a);
    lemma_mac_octets_spell_number(b);
}

/// Two MAC addresses with the same number are the same address.
pub proof fn lemma_mac_number_injective(a: MacAddress, b: MacAddress)
    requires
        a.spec_to_u64() == b.spec_to_u64(),
    ensures
        a.octets@ == b.octets@,
{
    assert(a.octets@ =~= b.octets@);
}

} // verus!
