use vstd::prelude::*;

verus! {

/// The format tag that starts every encoded ticket.
pub const TICKET_VERSION: u8 = 1;

/// Number of bytes in a peer identity.
pub const IDENTITY_LEN: usize = 32;

/// A stable 32-byte public identifier of a peer, independent of its network
/// address.
#[derive(Clone, Debug)]
pub struct PeerIdentity {
    pub bytes: Vec<u8>,
}

/// A direct address of a peer: 4 address bytes (IPv4) or 16 (IPv6), and a port.
#[derive(Clone, Debug)]
pub struct SocketAddress {
    pub ip: Vec<u8>,
    pub port: u16,
}

/// What a connector needs to find a peer: its identity, the direct addresses it
/// may be reached at, and a relay that can carry the traffic when none answers.
#[derive(Clone, Debug)]
pub struct Ticket {
    pub identity: PeerIdentity,
    pub direct_addresses: Vec<SocketAddress>,
    pub relay_url: Option<String>,
}

/// Why a text is not a ticket.
#[derive(Clone, Copy, Debug, PartialEq, Eq, Structural)]
pub enum TicketError {
    /// The text is not the encoding of any ticket.
    Malformed,
    /// The text is well formed but carries a format tag this decoder does not know.
    UnknownVersion,
}

pub ghost struct AddressView {
    pub ip: Seq<u8>,
    pub port: u16,
}

pub ghost struct TicketView {
    pub identity: Seq<u8>,
    pub addresses: Seq<AddressView>,
    pub relay: Option<Seq<char>>,
}

impl View for SocketAddress {
    type V = AddressView;

    open spec fn view(&self) -> AddressView {
        AddressView { ip: self.ip@, port: self.port }
    }
}

impl View for Ticket {
    type V = TicketView;

    open spec fn view(&self) -> TicketView {
        TicketView {
            identity: self.identity.bytes@,
            addresses: self.direct_addresses@.map_values(|a: SocketAddress| a@),
            relay: match self.relay_url {
                Some(u) => Some(u@),
                None => None,
            },
        }
    }
}

pub open spec fn is_ascii_text(s: Seq<char>) -> bool {
    forall|i: int| 0 <= i < s.len() ==> '\0' <= #[trigger] s[i] <= '\u{7f}'
}

pub open spec fn address_wf(a: AddressView) -> bool {
    a.ip.len() == 4 || a.ip.len() == 16
}

/// The tickets that can be encoded: a 32-byte identity, addresses of 4 or 16
/// bytes, at most 65535 of them, and a relay URL of at most 65535 ASCII
/// characters.
pub open spec fn ticket_wf(t: TicketView) -> bool {
    &&& t.identity.len() == IDENTITY_LEN
    &&& t.addresses.len() <= 0xffff
    &&& forall|i: int| 0 <= i < t.addresses.len() ==> address_wf(#[trigger] t.addresses[i])
    &&& match t.relay {
        Some(u) => u.len() <= 0xffff && is_ascii_text(u),
        None => true,
    }
}

pub open spec fn u16_be(n: u16) -> Seq<u8> {
    seq![(n / 256) as u8, (n % 256) as u8]
}

pub open spec fn address_bytes(a: AddressView) -> Seq<u8> {
    seq![a.ip.len() as u8] + a.ip + u16_be(a.port)
}

pub open spec fn addresses_bytes(s: Seq<AddressView>) -> Seq<u8>
    decreases s.len(),
{
    if s.len() == 0 {
        Seq::empty()
    } else {
        addresses_bytes(s.drop_last()) + address_bytes(s.last())
    }
}

pub open spec fn chars_to_bytes(s: Seq<char>) -> Seq<u8> {
    Seq::new(s.len(), |i: int| s[i] as u8)
}

pub open spec fn bytes_to_chars(b: Seq<u8>) -> Seq<char> {
    Seq::new(b.len(), |i: int| b[i] as char)
}

pub open spec fn relay_bytes(r: Option<Seq<char>>) -> Seq<u8> {
    match r {
        None => seq![0u8],
        Some(u) => seq![1u8] + u16_be(u.len() as u16) + chars_to_bytes(u),
    }
}

/// The binary form of a ticket: the format tag, the identity, the number of
/// addresses and each address, then the relay URL if there is one.
pub open spec fn ticket_bytes(t: TicketView) -> Seq<u8> {
    seq![TICKET_VERSION] + t.identity + u16_be(t.addresses.len() as u16) + addresses_bytes(
        t.addresses,
    ) + relay_bytes(t.relay)
}

/// The lowercase hexadecimal digit of a value below 16, as an ASCII byte.
pub open spec fn hex_digit(n: u8) -> u8 {
    if n < 10 {
        (48 + n) as u8
    } else {
        (87 + n) as u8
    }
}

/// Two lowercase hexadecimal digits for each byte, high digit first.
pub open spec fn hex_of(b: Seq<u8>) -> Seq<u8> {
    Seq::new(
        2 * b.len(),
        |i: int|
            if i % 2 == 0 {
                hex_digit(b[i / 2] / 16)
            } else {
                hex_digit(b[i / 2] % 16)
            },
    )
}

/// The printable form of a ticket.
pub open spec fn ticket_text(t: TicketView) -> Seq<char> {
    bytes_to_chars(hex_of(ticket_bytes(t)))
}

/// Relies on std's `String::from_utf8`: a byte sequence that is all ASCII is
/// valid UTF-8, and each byte becomes the character of that code.
#[verifier::external_body]
fn string_from_ascii(b: Vec<u8>) -> (r: String)
    requires
        forall|i: int| 0 <= i < b@.len() ==> b@[i] < 128,
    ensures
        r@ == bytes_to_chars(b@),
{
    String::from_utf8(b).unwrap()
}

fn push_u16_be(out: &mut Vec<u8>, n: u16)
    ensures
        final(out)@ == old(out)@ + u16_be(n),
{
    out.push((n / 256) as u8);
    out.push((n % 256) as u8);
    assert(final(out)@ =~= old(out)@ + u16_be(n));
}

fn push_all(out: &mut Vec<u8>, b: &Vec<u8>)
    ensures
        final(out)@ == old(out)@ + b@,
{
    let mut i: usize = 0;
    while i < b.len()
        invariant
            i <= b@.len(),
            out@ == old(out)@ + b@.subrange(0, i as int),
        decreases b@.len() - i,
    {
        out.push(b[i]);
        assert(b@.subrange(0, i + 1) == b@.subrange(0, i as int).push(b@[i as int]));
        i = i + 1;
    }
    assert(b@.subrange(0, b@.len() as int) == b@);
}

fn hex_digit_exec(n: u8) -> (r: u8)
    requires
        n < 16,
    ensures
        r == hex_digit(n),
{
    if n < 10 {
        48 + n
    } else {
        87 + n
    }
}

impl Ticket {
    /// Whether the ticket can be encoded.
    pub fn is_encodable(&self) -> (r: bool)
        ensures
            r == ticket_wf(self@),
    {
        if self.identity.bytes.len() != IDENTITY_LEN || self.direct_addresses.len() > 0xffff {
            return false;
        }
        let mut i: usize = 0;
        while i < self.direct_addresses.len()
            invariant
                i <= self.direct_addresses@.len(),
                forall|j: int| 0 <= j < i ==> address_wf(#[trigger] self@.addresses[j]),
            decreases self.direct_addresses@.len() - i,
        {
            let n = self.direct_addresses[i].ip.len();
            if n != 4 && n != 16 {
                assert(!address_wf(self@.addresses[i as int]));
                return false;
            }
            i = i + 1;
        }
        match &self.relay_url {
            None => true,
            Some(u) => {
                let us = u.as_str();
                us.is_ascii() && us.unicode_len() <= 0xffff
            },
        }
    }
}

/// Encodes a ticket in its printable form.
pub fn encode(t: &Ticket) -> (r: String)
    requires
        ticket_wf(t@),
    ensures
        r@ == ticket_text(t@),
{
    let ghost tv = t@;
    let mut b: Vec<u8> = Vec::new();
    b.push(TICKET_VERSION);
    push_all(&mut b, &t.identity.bytes);
    push_u16_be(&mut b, t.direct_addresses.len() as u16);
    let ghost head = b@;
    let mut i: usize = 0;
    while i < t.direct_addresses.len()
        invariant
            tv == t@,
            ticket_wf(tv),
            i <= t.direct_addresses@.len(),
            b@ == head + addresses_bytes(tv.addresses.subrange(0, i as int)),
        decreases t.direct_addresses@.len() - i,
    {
        let a = &t.direct_addresses[i];
        assert(tv.addresses[i as int] == a@);
        assert(address_wf(tv.addresses[i as int]));
        let ghost before = b@;
        b.push(a.ip.len() as u8);
        push_all(&mut b, &a.ip);
        push_u16_be(&mut b, a.port);
        let ghost s = tv.addresses.subrange(0, i + 1);
        assert(s.drop_last() == tv.addresses.subrange(0, i as int));
        assert(b@ =~= before + address_bytes(s.last()));
        i = i + 1;
    }
    assert(tv.addresses.subrange(0, i as int) == tv.addresses);
    match &t.relay_url {
        None => {
            b.push(0u8);
        },
        Some(u) => {
            b.push(1u8);
            let us = u.as_str();
            let ub = us.as_bytes();
            proof {
                vstd::string::is_ascii_spec_bytes(us);
                assert(ub@ =~= chars_to_bytes(u@));
            }
            push_u16_be(&mut b, ub.len() as u16);
            let ghost before = b@;
            let mut j: usize = 0;
            while j < ub.len()
                invariant
                    j <= ub@.len(),
                    ub@ == chars_to_bytes(u@),
                    b@ == before + ub@.subrange(0, j as int),
                decreases ub@.len() - j,
            {
                b.push(ub[j]);
                assert(ub@.subrange(0, j + 1) == ub@.subrange(0, j as int).push(ub@[j as int]));
                j = j + 1;
            }
            assert(ub@.subrange(0, j as int) == ub@);
        },
    }
    assert(b@ =~= ticket_bytes(tv));
    let mut h: Vec<u8> = Vec::new();
    let mut k: usize = 0;
    while k < b.len()
        invariant
            k <= b@.len(),
            h@ == hex_of(b@.subrange(0, k as int)),
        decreases b@.len() - k,
    {
        h.push(hex_digit_exec(b[k] / 16));
        h.push(hex_digit_exec(b[k] % 16));
        assert(h@ =~= hex_of(b@.subrange(0, k + 1)));
        k = k + 1;
    }
    assert(b@.subrange(0, k as int) == b@);
    string_from_ascii(h)
}

pub open spec fn be16(b: Seq<u8>, p: int) -> u16 {
    (b[p] as int * 256 + b[p + 1] as int) as u16
}

/// Reads one address at `p`; the position after it comes back with it.
pub open spec fn parse_address(b: Seq<u8>, p: int) -> Option<(AddressView, int)> {
    if 0 <= p < b.len() && (b[p] == 4 || b[p] == 16) && p + 3 + b[p] <= b.len() {
        let k = b[p] as int;
        Some((AddressView { ip: b.subrange(p + 1, p + 1 + k), port: be16(b, p + 1 + k) }, p + 3 + k))
    } else {
        None
    }
}

/// Reads `n` addresses one after another from `p`.
pub open spec fn parse_addresses(b: Seq<u8>, p: int, n: nat) -> Option<(Seq<AddressView>, int)>
    decreases n,
{
    if n == 0 {
        Some((Seq::empty(), p))
    } else {
        match parse_addresses(b, p, (n - 1) as nat) {
            None => None,
            Some((s, q)) => match parse_address(b, q) {
                None => None,
                Some((a, e)) => Some((s.push(a), e)),
            },
        }
    }
}

pub open spec fn all_below_128(b: Seq<u8>) -> bool {
    forall|i: int| 0 <= i < b.len() ==> #[trigger] b[i] < 128
}

/// Reads the relay part, which must run to the end of `b`.
pub open spec fn parse_relay(b: Seq<u8>, p: int) -> Option<Option<Seq<char>>> {
    if 0 <= p && p + 1 == b.len() && b[p] == 0 {
        Some(None)
    } else if 0 <= p && p + 3 <= b.len() && b[p] == 1 && p + 3 + be16(b, p + 1) == b.len()
        && all_below_128(b.subrange(p + 3, b.len() as int)) {
        Some(Some(bytes_to_chars(b.subrange(p + 3, b.len() as int))))
    } else {
        None
    }
}

/// The ticket whose binary form `b` is, if there is one.
pub open spec fn parse_ticket(b: Seq<u8>) -> Option<TicketView> {
    if b.len() >= 35 && b[0] == TICKET_VERSION {
        match parse_addresses(b, 35, be16(b, 33) as nat) {
            None => None,
            Some((s, q)) => match parse_relay(b, q) {
                None => None,
                Some(r) => Some(TicketView { identity: b.subrange(1, 33), addresses: s, relay: r }),
            },
        }
    } else {
        None
    }
}

/// The texts that carry a well-formed binary form with a format tag other than
/// this library's.
pub open spec fn has_unknown_version(s: Seq<char>) -> bool {
    exists|b: Seq<u8>| s == bytes_to_chars(hex_of(b)) && b.len() > 0 && b[0] != TICKET_VERSION
}

proof fn lemma_be16(n: u16, pre: Seq<u8>, rest: Seq<u8>)
    ensures
        be16(pre + u16_be(n) + rest, pre.len() as int) == n,
{
    let b = pre + u16_be(n) + rest;
    assert(b[pre.len() as int] == (n / 256) as u8);
    assert(b[pre.len() as int + 1] == (n % 256) as u8);
}

proof fn lemma_parse_addresses_of_bytes(pre: Seq<u8>, s: Seq<AddressView>, rest: Seq<u8>)
    requires
        forall|i: int| 0 <= i < s.len() ==> address_wf(#[trigger] s[i]),
    ensures
        parse_addresses(pre + addresses_bytes(s) + rest, pre.len() as int, s.len()) == Some(
            (s, pre.len() as int + addresses_bytes(s).len() as int),
        ),
    decreases s.len(),
{
    if s.len() > 0 {
        let a = s.last();
        let init = s.drop_last();
        assert(address_wf(s[s.len() - 1]));
        assert forall|i: int| 0 <= i < init.len() implies address_wf(#[trigger] init[i]) by {
            assert(init[i] == s[i]);
        }
        let tail = address_bytes(a) + rest;
        assert(pre + addresses_bytes(s) + rest =~= pre + addresses_bytes(init) + tail);
        lemma_parse_addresses_of_bytes(pre, init, tail);
        let b = pre + addresses_bytes(s) + rest;
        let q = pre.len() as int + addresses_bytes(init).len() as int;
        let k = a.ip.len() as int;
        let pre2 = pre + addresses_bytes(init) + seq![k as u8] + a.ip;
        assert(b =~= pre2 + u16_be(a.port) + rest);
        lemma_be16(a.port, pre2, rest);
        assert(b[q] == k as u8);
        assert(b.subrange(q + 1, q + 1 + k) =~= a.ip);
        assert(s.drop_last().push(a) =~= s);
    }
}

proof fn lemma_parse_addresses_sound(b: Seq<u8>, p: int, n: nat)
    requires
        0 <= p <= b.len(),
        parse_addresses(b, p, n) is Some,
    ensures
        ({
            let (s, q) = parse_addresses(b, p, n)->Some_0;
            &&& s.len() == n
            &&& p <= q <= b.len()
            &&& b.subrange(p, q) == addresses_bytes(s)
            &&& forall|i: int| 0 <= i < s.len() ==> address_wf(#[trigger] s[i])
        }),
    decreases n,
{
    if n == 0 {
        assert(b.subrange(p, p) =~= Seq::<u8>::empty());
    } else {
        lemma_parse_addresses_sound(b, p, (n - 1) as nat);
        let (s0, q0) = parse_addresses(b, p, (n - 1) as nat)->Some_0;
        let (a, e) = parse_address(b, q0)->Some_0;
        let s = s0.push(a);
        let k = b[q0] as int;
        assert(s.drop_last() =~= s0);
        assert(b.subrange(e - 2, e) =~= u16_be(a.port));
        assert(b.subrange(q0, e) =~= address_bytes(a));
        assert(b.subrange(p, e) =~= b.subrange(p, q0) + b.subrange(q0, e));
        assert forall|i: int| 0 <= i < s.len() implies address_wf(#[trigger] s[i]) by {
            if i < s0.len() {
                assert(s[i] == s0[i]);
            }
        }
    }
}

/// Decoding the binary form of a ticket gives that ticket back.
pub proof fn lemma_parse_ticket_bytes(t: TicketView)
    requires
        ticket_wf(t),
    ensures
        parse_ticket(ticket_bytes(t)) == Some(t),
{
    let b = ticket_bytes(t);
    let n = t.addresses.len() as u16;
    let pre = seq![TICKET_VERSION] + t.identity;
    let rb = relay_bytes(t.relay);
    assert(b =~= pre + u16_be(n) + (addresses_bytes(t.addresses) + rb));
    lemma_be16(n, pre, addresses_bytes(t.addresses) + rb);
    let pre2 = pre + u16_be(n);
    assert(b =~= pre2 + addresses_bytes(t.addresses) + rb);
    lemma_parse_addresses_of_bytes(pre2, t.addresses, rb);
    let q = pre2.len() as int + addresses_bytes(t.addresses).len() as int;
    assert(b.subrange(1, 33) =~= t.identity);
    match t.relay {
        None => {},
        Some(u) => {
            let pre3 = pre2 + addresses_bytes(t.addresses) + seq![1u8];
            assert(b =~= pre3 + u16_be(u.len() as u16) + chars_to_bytes(u));
            lemma_be16(u.len() as u16, pre3, chars_to_bytes(u));
            assert(b.subrange(q + 3, b.len() as int) =~= chars_to_bytes(u));
            assert(bytes_to_chars(chars_to_bytes(u)) =~= u);
        },
    }
}

/// A binary form that decodes is the binary form of what it decodes to.
pub proof fn lemma_parse_ticket_canonical(b: Seq<u8>)
    requires
        parse_ticket(b) is Some,
    ensures
        ticket_wf(parse_ticket(b)->Some_0),
        ticket_bytes(parse_ticket(b)->Some_0) == b,
{
    let t = parse_ticket(b)->Some_0;
    let n = be16(b, 33);
    lemma_parse_addresses_sound(b, 35, n as nat);
    let (s, q) = parse_addresses(b, 35, n as nat)->Some_0;
    assert(b.subrange(33, 35) =~= u16_be(n));
    assert(s.len() as u16 == n);
    let head = seq![TICKET_VERSION] + t.identity + u16_be(t.addresses.len() as u16);
    assert(b.subrange(0, 35) =~= head);
    match t.relay {
        None => {
            assert(b.subrange(q, b.len() as int) =~= relay_bytes(t.relay));
        },
        Some(u) => {
            let ub = b.subrange(q + 3, b.len() as int);
            assert(chars_to_bytes(bytes_to_chars(ub)) =~= ub);
            assert(b.subrange(q + 1, q + 3) =~= u16_be(u.len() as u16));
            assert(b.subrange(q, b.len() as int) =~= relay_bytes(t.relay));
            assert(is_ascii_text(u)) by {
                assert forall|i: int| 0 <= i < u.len() implies '\0' <= #[trigger] u[i] <= '\u{7f}' by {
                    assert(ub[i] < 128);
                }
            }
        },
    }
    assert(b =~= b.subrange(0, 35) + b.subrange(35, q) + b.subrange(q, b.len() as int));
}

/// Every byte of a hexadecimal form is a lowercase hexadecimal digit.
pub open spec fn is_hex_digit(c: u8) -> bool {
    (48 <= c <= 57) || (97 <= c <= 102)
}

proof fn lemma_hex_of_injective(b1: Seq<u8>, b2: Seq<u8>)
    requires
        hex_of(b1) == hex_of(b2),
    ensures
        b1 == b2,
{
    assert(hex_of(b1).len() == 2 * b1.len());
    assert forall|k: int| 0 <= k < b1.len() implies b1[k] == b2[k] by {
        assert((2 * k) % 2 == 0 && (2 * k) / 2 == k);
        assert((2 * k + 1) % 2 == 1 && (2 * k + 1) / 2 == k);
        assert(hex_of(b1)[2 * k] == hex_digit(b1[k] / 16));
        assert(hex_of(b2)[2 * k] == hex_digit(b2[k] / 16));
        assert(hex_of(b1)[2 * k + 1] == hex_digit(b1[k] % 16));
        assert(hex_of(b2)[2 * k + 1] == hex_digit(b2[k] % 16));
        assert(b1[k] / 16 == b2[k] / 16);
        assert(b1[k] % 16 == b2[k] % 16);
        assert(b1[k] == (b1[k] / 16) * 16 + b1[k] % 16);
        assert(b2[k] == (b2[k] / 16) * 16 + b2[k] % 16);
    }
    assert(b1 =~= b2);
}

proof fn lemma_hex_of_digits(b: Seq<u8>)
    ensures
        forall|i: int| 0 <= i < hex_of(b).len() ==> is_hex_digit(#[trigger] hex_of(b)[i]),
        chars_to_bytes(bytes_to_chars(hex_of(b))) == hex_of(b),
{
    assert(chars_to_bytes(bytes_to_chars(hex_of(b))) =~= hex_of(b));
}

fn hex_value(c: u8) -> (r: Option<u8>)
    ensures
        match r {
            Some(v) => v < 16 && hex_digit(v) == c,
            None => !is_hex_digit(c),
        },
{
    if 48 <= c && c <= 57 {
        Some(c - 48)
    } else if 97 <= c && c <= 102 {
        Some(c - 87)
    } else {
        None
    }
}

/// The bytes whose hexadecimal form `h` is, if there are any.
fn hex_decode(h: &[u8]) -> (r: Option<Vec<u8>>)
    ensures
        match r {
            Some(b) => hex_of(b@) == h@,
            None => forall|b: Seq<u8>| hex_of(b) != h@,
        },
{
    if h.len() % 2 != 0 {
        proof {
            assert forall|b: Seq<u8>| hex_of(b) != h@ by {
                assert(hex_of(b).len() == 2 * b.len());
            }
        }
        return None;
    }
    let hl = h.len();
    let n = hl / 2;
    let mut out: Vec<u8> = Vec::new();
    let mut i: usize = 0;
    while i < n
        invariant
            n * 2 == h@.len(),
            hl == h@.len(),
            i <= n,
            hex_of(out@) == h@.subrange(0, 2 * i),
        decreases n - i,
    {
        let j: usize = i + i;
        let hi = hex_value(h[j]);
        let lo = hex_value(h[j + 1]);
        match (hi, lo) {
            (Some(x), Some(y)) => {
                let ghost prev = out@;
                let v: u8 = x * 16 + y;
                out.push(v);
                assert(v / 16 == x && v % 16 == y);
                assert(prev.len() == i) by {
                    assert(hex_of(prev).len() == 2 * prev.len());
                }
                assert(hex_of(out@) =~= h@.subrange(0, 2 * (i + 1))) by {
                    assert forall|m: int| 0 <= m < 2 * prev.len() implies hex_of(out@)[m] == hex_of(
                        prev,
                    )[m] by {
                        assert(m / 2 < prev.len());
                        assert(out@[m / 2] == prev[m / 2]);
                    }
                    assert((2 * i as int) % 2 == 0 && (2 * i as int) / 2 == i);
                    assert((2 * i as int + 1) % 2 == 1 && (2 * i as int + 1) / 2 == i);
                    assert(hex_of(out@)[2 * i as int] == hex_digit(x));
                    assert(hex_of(out@)[2 * i as int + 1] == hex_digit(y));
                    assert(h@.subrange(0, 2 * i as int) == hex_of(prev));
                }
                i = i + 1;
            },
            _ => {
                proof {
                    let m = if hi is None { j as int } else { j + 1 };
                    assert(!is_hex_digit(h@[m]));
                    assert forall|b: Seq<u8>| hex_of(b) != h@ by {
                        lemma_hex_of_digits(b);
                        if hex_of(b) == h@ {
                            assert(is_hex_digit(hex_of(b)[m]));
                        }
                    }
                }
                return None;
            },
        }
    }
    assert(h@.subrange(0, 2 * n as int) == h@);
    Some(out)
}

proof fn lemma_parse_addresses_stuck(b: Seq<u8>, p: int, i: nat, m: nat)
    requires
        i < m,
        parse_addresses(b, p, i) is Some,
        parse_address(b, parse_addresses(b, p, i)->Some_0.1) is None,
    ensures
        parse_addresses(b, p, m) is None,
    decreases m,
{
    if m - 1 > i {
        lemma_parse_addresses_stuck(b, p, i, (m - 1) as nat);
    }
}

fn u16_from_be(hi: u8, lo: u8) -> (r: u16)
    ensures
        r == (hi as int * 256 + lo as int) as u16,
{
    let h: u16 = hi as u16;
    let l: u16 = lo as u16;
    assert(h * 256 + l <= 0xffff) by (nonlinear_arith)
        requires
            h <= 255,
            l <= 255,
    ;
    h * 256 + l
}

fn sub_vec(b: &Vec<u8>, from: usize, to: usize) -> (r: Vec<u8>)
    requires
        from <= to <= b@.len(),
    ensures
        r@ == b@.subrange(from as int, to as int),
{
    let mut r: Vec<u8> = Vec::new();
    let mut i: usize = from;
    while i < to
        invariant
            from <= i <= to <= b@.len(),
            r@ == b@.subrange(from as int, i as int),
        decreases to - i,
    {
        r.push(b[i]);
        assert(b@.subrange(from as int, i + 1) == b@.subrange(from as int, i as int).push(
            b@[i as int],
        ));
        i = i + 1;
    }
    r
}

fn all_ascii_from(b: &Vec<u8>, from: usize) -> (r: bool)
    requires
        from <= b@.len(),
    ensures
        r == all_below_128(b@.subrange(from as int, b@.len() as int)),
{
    let mut i: usize = from;
    while i < b.len()
        invariant
            from <= i <= b@.len(),
            forall|j: int| from <= j < i ==> b@[j] < 128,
        decreases b@.len() - i,
    {
        if b[i] >= 128 {
            assert(b@.subrange(from as int, b@.len() as int)[i - from] >= 128);
            return false;
        }
        i = i + 1;
    }
    assert forall|j: int| 0 <= j < b@.len() - from implies #[trigger] b@.subrange(
        from as int,
        b@.len() as int,
    )[j] < 128 by {
        assert(b@[from + j] < 128);
    }
    true
}

fn parse_address_exec(b: &Vec<u8>, p: usize) -> (r: Option<(SocketAddress, usize)>)
    ensures
        match r {
            Some((a, e)) => parse_address(b@, p as int) == Some((a@, e as int)),
            None => parse_address(b@, p as int) is None,
        },
{
    if p >= b.len() {
        return None;
    }
    let k = b[p];
    if k != 4 && k != 16 {
        return None;
    }
    if b.len() - p < 3 + k as usize {
        return None;
    }
    let ip = sub_vec(b, p + 1, p + 1 + k as usize);
    let port = u16_from_be(b[p + 1 + k as usize], b[p + 2 + k as usize]);
    Some((SocketAddress { ip, port }, p + 3 + k as usize))
}

/// The ticket whose binary form `b` is, if there is one.
fn parse_payload(b: &Vec<u8>) -> (r: Option<Ticket>)
    ensures
        match r {
            Some(t) => parse_ticket(b@) == Some(t@),
            None => parse_ticket(b@) is None,
        },
{
    if b.len() < 35 || b[0] != TICKET_VERSION {
        return None;
    }
    let identity = PeerIdentity { bytes: sub_vec(b, 1, 33) };
    let n = u16_from_be(b[33], b[34]);
    let mut addresses: Vec<SocketAddress> = Vec::new();
    let mut pos: usize = 35;
    let mut i: usize = 0;
    while i < n as usize
        invariant
            i <= n,
            n == be16(b@, 33),
            pos <= b@.len(),
            parse_addresses(b@, 35, i as nat) == Some(
                (addresses@.map_values(|a: SocketAddress| a@), pos as int),
            ),
        decreases n - i,
    {
        match parse_address_exec(b, pos) {
            None => {
                proof {
                    lemma_parse_addresses_stuck(b@, 35, i as nat, n as nat);
                }
                return None;
            },
            Some((a, e)) => {
                let ghost prev = addresses@;
                addresses.push(a);
                assert(addresses@.map_values(|a: SocketAddress| a@) =~= prev.map_values(
                    |a: SocketAddress| a@,
                ).push(a@));
                pos = e;
                i = i + 1;
            },
        }
    }
    let relay_url: Option<String>;
    if b.len() - pos == 1 && b[pos] == 0 {
        relay_url = None;
    } else if b.len() - pos >= 3 && b[pos] == 1 && u16_from_be(b[pos + 1], b[pos + 2]) as usize == b.len() - (pos
        + 3) && all_ascii_from(b, pos + 3) {
        let ub = sub_vec(b, pos + 3, b.len());
        relay_url = Some(string_from_ascii(ub));
    } else {
        return None;
    }
    let t = Ticket { identity, direct_addresses: addresses, relay_url };
    assert(t@.identity == b@.subrange(1, 33));
    Some(t)
}

proof fn lemma_text_bytes(s: Seq<char>, sb: Seq<u8>, b: Seq<u8>)
    requires
        is_ascii_text(s),
        sb == Seq::new(s.len(), |i: int| s[i] as u8),
    ensures
        s == bytes_to_chars(hex_of(b)) <==> sb == hex_of(b),
{
    lemma_hex_of_digits(b);
    if s == bytes_to_chars(hex_of(b)) {
        assert(sb =~= chars_to_bytes(bytes_to_chars(hex_of(b))));
    }
    if sb == hex_of(b) {
        assert(s =~= bytes_to_chars(hex_of(b)));
    }
}

proof fn lemma_hex_text_is_ascii(b: Seq<u8>)
    ensures
        is_ascii_text(bytes_to_chars(hex_of(b))),
{
    lemma_hex_of_digits(b);
    assert forall|i: int| 0 <= i < bytes_to_chars(hex_of(b)).len() implies '\0'
        <= #[trigger] bytes_to_chars(hex_of(b))[i] <= '\u{7f}' by {
        assert(is_hex_digit(hex_of(b)[i]));
    }
}

/// Decodes a ticket from its printable form.
pub fn decode(s: &str) -> (r: Result<Ticket, TicketError>)
    ensures
        match r {
            Ok(t) => ticket_wf(t@) && s@ == ticket_text(t@),
            Err(TicketError::UnknownVersion) => has_unknown_version(s@),
            Err(TicketError::Malformed) => !has_unknown_version(s@) && forall|t: TicketView|
                ticket_wf(t) ==> s@ != #[trigger] ticket_text(t),
        },
{
    if !s.is_ascii() {
        proof {
            assert forall|b: Seq<u8>| s@ != bytes_to_chars(hex_of(b)) by {
                lemma_hex_text_is_ascii(b);
            }
        }
        return Err(TicketError::Malformed);
    }
    let sb = s.as_bytes();
    proof {
        vstd::string::is_ascii_spec_bytes(s);
        assert forall|b: Seq<u8>| s@ == bytes_to_chars(hex_of(b)) <==> sb@ == hex_of(b) by {
            lemma_text_bytes(s@, sb@, b);
        }
    }
    match hex_decode(sb) {
        None => Err(TicketError::Malformed),
        Some(b) => {
            proof {
                assert forall|c: Seq<u8>| sb@ == hex_of(c) implies c == b@ by {
                    lemma_hex_of_injective(c, b@);
                }
                assert forall|t: TicketView| ticket_wf(t) && s@ == ticket_text(t) implies parse_ticket(
                    b@,
                ) == Some(t) by {
                    lemma_parse_ticket_bytes(t);
                }
            }
            if b.len() == 0 {
                Err(TicketError::Malformed)
            } else if b[0] != TICKET_VERSION {
                Err(TicketError::UnknownVersion)
            } else {
                match parse_payload(&b) {
                    None => Err(TicketError::Malformed),
                    Some(t) => {
                        proof {
                            lemma_parse_ticket_canonical(b@);
                        }
                        Ok(t)
                    },
                }
            }
        },
    }
}

/// Decoding the printable form of a well-formed ticket gives that ticket back:
/// no other well-formed ticket has the same text, and the text never reads as
/// an unknown format.
pub proof fn lemma_ticket_round_trip(t: TicketView, u: TicketView)
    requires
        ticket_wf(t),
        ticket_wf(u),
        ticket_text(u) == ticket_text(t),
    ensures
        u == t,
        !has_unknown_version(ticket_text(t)),
{
    lemma_ticket_text_determines(t, u);
    assert forall|b: Seq<u8>| ticket_text(t) == bytes_to_chars(hex_of(b)) implies b.len() > 0
        && b[0] == TICKET_VERSION by {
        lemma_hex_of_digits(b);
        lemma_hex_of_digits(ticket_bytes(t));
        assert(hex_of(b) =~= chars_to_bytes(bytes_to_chars(hex_of(b))));
        lemma_hex_of_injective(b, ticket_bytes(t));
    }
}

proof fn lemma_ticket_text_determines(t: TicketView, u: TicketView)
    requires
        ticket_wf(t),
        ticket_wf(u),
        ticket_text(u) == ticket_text(t),
    ensures
        u == t,
{
    lemma_hex_of_digits(ticket_bytes(t));
    lemma_hex_of_digits(ticket_bytes(u));
    lemma_hex_of_injective(ticket_bytes(t), ticket_bytes(u));
    lemma_parse_ticket_bytes(t);
    lemma_parse_ticket_bytes(u);
}

} // verus!
