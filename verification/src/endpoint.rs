//! Endpoints: a numeric address and a port, written `address:port`.
//!
//! An IPv4 endpoint is four decimal numbers up to 255, joined by dots, then a
//! colon and the port: `127.0.0.1:8080`. An IPv6 endpoint holds its address in
//! square brackets: `[::1]:8080`; a numeric scope may follow the address after
//! a percent sign: `[fe80::1%3]:8080`. Nothing is resolved or canonicalised:
//! a host name is no endpoint.

use vstd::prelude::*;
use vstd::slice::*;
use vstd::string::*;

use crate::text::lemma_digits_value_grows;
use crate::text::{all_digits, digits_value, fields, index_of, is_digit, views};
use crate::text::{chars_of, find, split};

verus! {

/// A numeric address with a port.
#[derive(Debug, Clone, Copy, PartialEq, Eq)]
pub enum Endpoint {
    /// An IPv4 address, most significant octet first, and a port.
    V4 { octets: [u8; 4], port: u16 },
    /// An IPv6 address, most significant group first, with its scope (0 where
    /// none was given) and a port.
    V6 { segments: [u16; 8], scope_id: u32, port: u16 },
}

/// What an [`Endpoint`] holds.
pub ghost enum EndpointView {
    V4 { octets: Seq<u8>, port: u16 },
    V6 { segments: Seq<u16>, scope_id: u32, port: u16 },
}

impl View for Endpoint {
    type V = EndpointView;

    open spec fn view(&self) -> EndpointView {
        match *self {
            Endpoint::V4 { octets, port } => EndpointView::V4 { octets: octets@, port },
            Endpoint::V6 { segments, scope_id, port } => EndpointView::V6 {
                segments: segments@,
                scope_id,
                port,
            },
        }
    }
}

/// The text is no endpoint.
#[derive(Debug, Clone, Copy, PartialEq, Eq)]
pub struct EndpointError {}

impl EndpointError {
    /// The text of [`EndpointError::message`].
    pub open spec fn message_text(self) -> Seq<char> {
        "invalid socket address syntax"@
    }

    /// The error in words.
    pub fn message(&self) -> (text: String)
        ensures
            text@ == self.message_text(),
    {
        String::from_str("invalid socket address syntax")
    }
}

/// What reading an endpoint from a text gives.
pub open spec fn endpoint_of_text(text: Seq<char>) -> Result<EndpointView, EndpointError> {
    match endpoint_of(text) {
        Some(endpoint) => Ok(endpoint),
        None => Err(EndpointError {  }),
    }
}

/// The endpoint that a text spells, if it spells one: a text that starts
/// with a square bracket is read as an IPv6 endpoint, any other as an IPv4
/// endpoint.
pub open spec fn endpoint_of(text: Seq<char>) -> Option<EndpointView> {
    if text.len() > 0 && text[0] == '[' {
        bracketed_endpoint_of(text)
    } else {
        dotted_endpoint_of(text)
    }
}

/// The IPv4 endpoint that a text spells: a dotted address, a colon, a port.
pub open spec fn dotted_endpoint_of(text: Seq<char>) -> Option<EndpointView> {
    let colon = index_of(text, ':');
    if colon < text.len() {
        match (ipv4_of(text.take(colon)), port_of(text.skip(colon + 1))) {
            (Some(octets), Some(port)) => Some(EndpointView::V4 { octets, port }),
            _ => None,
        }
    } else {
        None
    }
}

/// The IPv6 endpoint that a text spells: an address in square brackets, with
/// or without a scope, then a colon and a port.
pub open spec fn bracketed_endpoint_of(text: Seq<char>) -> Option<EndpointView> {
    let close = index_of(text, ']');
    if text.len() > 0 && text[0] == '[' && close + 1 < text.len() && text[close + 1] == ':' {
        match (scoped_of(text.subrange(1, close)), port_of(text.skip(close + 2))) {
            (Some((segments, scope_id)), Some(port)) => Some(
                EndpointView::V6 { segments, scope_id, port },
            ),
            _ => None,
        }
    } else {
        None
    }
}

/// The address and the scope that a text spells: a colon-separated address,
/// which may be followed by a percent sign and a scope. Without one the scope
/// is 0.
pub open spec fn scoped_of(text: Seq<char>) -> Option<(Seq<u16>, u32)> {
    let percent = index_of(text, '%');
    let scope = if percent < text.len() {
        scope_of(text.skip(percent + 1))
    } else {
        Some(0u32)
    };
    match (ipv6_of(text.take(percent)), scope) {
        (Some(segments), Some(scope_id)) => Some((segments, scope_id)),
        _ => None,
    }
}

/// The port that a text spells: a decimal number up to 65535.
pub open spec fn port_of(text: Seq<char>) -> Option<u16> {
    match bounded_decimal(text, 0xffff) {
        Some(n) => Some(n as u16),
        None => None,
    }
}

/// The scope that a text spells: a decimal number that fits 32 bits.
pub open spec fn scope_of(text: Seq<char>) -> Option<u32> {
    match bounded_decimal(text, 0xffff_ffff) {
        Some(n) => Some(n as u32),
        None => None,
    }
}

/// The number of a decimal text of at least one digit that is no more than
/// `max`.
pub open spec fn bounded_decimal(text: Seq<char>, max: nat) -> Option<nat> {
    if text.len() >= 1 && all_digits(text) && digits_value(text) <= max {
        Some(digits_value(text))
    } else {
        None
    }
}

/// The four octets of a dotted address.
pub open spec fn ipv4_of(text: Seq<char>) -> Option<Seq<u8>> {
    let parts = fields(text, '.');
    if parts.len() == 4 && forall|i: int| 0 <= i < 4 ==> octet_of(#[trigger] parts[i]) is Some {
        Some(Seq::new(4, |i: int| octet_of(parts[i]).unwrap()))
    } else {
        None
    }
}

/// One part of a dotted address: one to three digits, at most 255, and
/// without a leading zero unless the part is `0` itself.
pub open spec fn octet_of(text: Seq<char>) -> Option<u8> {
    if text.len() <= 3 && (text.len() > 1 ==> text[0] != '0') {
        match bounded_decimal(text, 0xff) {
            Some(n) => Some(n as u8),
            None => None,
        }
    } else {
        None
    }
}

/// The eight groups of a colon-separated address. Written in full it has
/// eight groups. Two colons in a row, once, stand for as many zero groups as
/// are missing, and for at least one. The last two groups may be written as a
/// dotted address, but not before the two colons.
pub open spec fn ipv6_of(text: Seq<char>) -> Option<Seq<u16>> {
    let gap = gap_of(text);
    if gap >= text.len() {
        match groups_of(text, true) {
            Some(groups) => if groups.len() == 8 {
                Some(groups)
            } else {
                None
            },
            None => None,
        }
    } else {
        match (groups_of(text.take(gap), false), groups_of(text.skip(gap + 2), true)) {
            (Some(head), Some(tail)) => if head.len() + tail.len() <= 7 {
                Some(head + Seq::new((8 - head.len() - tail.len()) as nat, |i: int| 0u16) + tail)
            } else {
                None
            },
            _ => None,
        }
    }
}

/// The place of the first two colons in a row, or the text's length if there
/// are none.
pub open spec fn gap_of(text: Seq<char>) -> int
    decreases text.len(),
{
    if text.len() < 2 {
        text.len() as int
    } else if text[0] == ':' && text[1] == ':' {
        0
    } else {
        1 + gap_of(text.skip(1))
    }
}

/// The groups of a list joined by colons. An empty text is an empty list.
/// Where `dotted` is set, the last item may be a dotted address, which
/// stands for two groups.
pub open spec fn groups_of(text: Seq<char>, dotted: bool) -> Option<Seq<u16>> {
    let parts = fields(text, ':');
    let front = parts.drop_last();
    let plain = Seq::new(front.len(), |i: int| group_of(front[i]).unwrap());
    if text.len() == 0 {
        Some(Seq::empty())
    } else if !(forall|i: int| 0 <= i < front.len() ==> group_of(#[trigger] front[i]) is Some) {
        None
    } else if group_of(parts.last()) is Some {
        Some(plain.push(group_of(parts.last()).unwrap()))
    } else if dotted && ipv4_of(parts.last()) is Some {
        Some(plain + groups_of_octets(ipv4_of(parts.last()).unwrap()))
    } else {
        None
    }
}

/// The two groups that hold the four octets of a dotted address.
pub open spec fn groups_of_octets(octets: Seq<u8>) -> Seq<u16>
    recommends
        octets.len() == 4,
{
    seq![(octets[0] * 256 + octets[1]) as u16, (octets[2] * 256 + octets[3]) as u16]
}

/// One group of a colon-separated address: one to four hexadecimal digits.
pub open spec fn group_of(text: Seq<char>) -> Option<u16> {
    if 1 <= text.len() <= 4 && forall|i: int|
        0 <= i < text.len() ==> is_hex_digit(#[trigger] text[i]) {
        Some(hex_value(text) as u16)
    } else {
        None
    }
}

/// The number that a run of hexadecimal digits spells, most significant
/// digit first.
pub open spec fn hex_value(digits: Seq<char>) -> nat
    decreases digits.len(),
{
    if digits.len() == 0 {
        0
    } else {
        16 * hex_value(digits.drop_last()) + hex_digit_value(digits.last())
    }
}

/// The number that the hexadecimal digit `c` stands for.
pub open spec fn hex_digit_value(c: char) -> nat
    recommends
        is_hex_digit(c),
{
    if '0' <= c && c <= '9' {
        (c as int - '0' as int) as nat
    } else if 'a' <= c && c <= 'f' {
        (c as int - 'a' as int + 10) as nat
    } else {
        (c as int - 'A' as int + 10) as nat
    }
}

/// Whether `c` is a hexadecimal digit, in either case.
pub open spec fn is_hex_digit(c: char) -> bool {
    ('0' <= c && c <= '9') || ('a' <= c && c <= 'f') || ('A' <= c && c <= 'F')
}

/// A place is the first gap when no two colons in a row start before it and
/// either two start there or the text has fewer than two characters left.
pub proof fn lemma_gap_of(text: Seq<char>, k: int)
    requires
        0 <= k <= text.len(),
        forall|j: int|
            0 <= j < k && j + 1 < text.len() ==> !(#[trigger] text[j] == ':' && text[j + 1]
                == ':'),
        k + 1 < text.len() ==> text[k] == ':' && text[k + 1] == ':',
        k + 1 >= text.len() ==> k == text.len(),
    ensures
        gap_of(text) == k,
    decreases text.len(),
{
    if text.len() >= 2 && k > 0 {
        lemma_gap_of(text.skip(1), k - 1);
    }
}

/// Sixteen to the power of `n`.
spec fn pow16(n: nat) -> nat
    decreases n,
{
    if n == 0 {
        1
    } else {
        16 * pow16((n - 1) as nat)
    }
}

/// Reads an endpoint.
pub fn parse_endpoint(text: &str) -> (parsed: Result<Endpoint, EndpointError>)
    ensures
        match parsed {
            Ok(endpoint) => endpoint_of_text(text@) == Ok::<EndpointView, EndpointError>(endpoint@),
            Err(error) => endpoint_of_text(text@) == Err::<EndpointView, EndpointError>(error),
        },
{
    let chars = chars_of(text);
    match parse_endpoint_chars(chars.as_slice()) {
        Some(endpoint) => Ok(endpoint),
        None => Err(EndpointError {  }),
    }
}

/// Reads an endpoint from its characters.
pub fn parse_endpoint_chars(text: &[char]) -> (endpoint: Option<Endpoint>)
    ensures
        match endpoint {
            Some(e) => endpoint_of(text@) == Some(e@),
            None => endpoint_of(text@) is None,
        },
{
    if text.len() > 0 && text[0] == '[' {
        parse_bracketed_endpoint(text)
    } else {
        parse_dotted_endpoint(text)
    }
}

/// Reads an IPv4 endpoint.
pub fn parse_dotted_endpoint(text: &[char]) -> (endpoint: Option<Endpoint>)
    ensures
        match endpoint {
            Some(e) => dotted_endpoint_of(text@) == Some(e@),
            None => dotted_endpoint_of(text@) is None,
        },
{
    let colon = find(text, 0, ':');
    proof {
        assert(text@.skip(0) =~= text@);
    }
    if colon >= text.len() {
        return None;
    }
    let octets = match parse_ipv4(slice_subrange(text, 0, colon)) {
        Some(octets) => octets,
        None => {
            return None;
        },
    };
    match parse_port(slice_subrange(text, colon + 1, text.len())) {
        Some(port) => Some(Endpoint::V4 { octets, port }),
        None => None,
    }
}

/// Reads an IPv6 endpoint.
pub fn parse_bracketed_endpoint(text: &[char]) -> (endpoint: Option<Endpoint>)
    ensures
        match endpoint {
            Some(e) => bracketed_endpoint_of(text@) == Some(e@),
            None => bracketed_endpoint_of(text@) is None,
        },
{
    if text.len() == 0 || text[0] != '[' {
        return None;
    }
    let close = find(text, 1, ']');
    if close >= text.len() - 1 || text[close + 1] != ':' {
        return None;
    }
    let (segments, scope_id) = match parse_scoped(slice_subrange(text, 1, close)) {
        Some(scoped) => scoped,
        None => {
            return None;
        },
    };
    match parse_port(slice_subrange(text, close + 2, text.len())) {
        Some(port) => Some(Endpoint::V6 { segments, scope_id, port }),
        None => None,
    }
}

/// Reads a colon-separated address with or without a scope.
pub fn parse_scoped(text: &[char]) -> (scoped: Option<([u16; 8], u32)>)
    ensures
        match scoped {
            Some((segments, scope_id)) => scoped_of(text@) == Some((segments@, scope_id)),
            None => scoped_of(text@) is None,
        },
{
    let percent = find(text, 0, '%');
    proof {
        assert(text@.skip(0) =~= text@);
    }
    let segments = match parse_ipv6(slice_subrange(text, 0, percent)) {
        Some(segments) => segments,
        None => {
            return None;
        },
    };
    if percent == text.len() {
        return Some((segments, 0));
    }
    match parse_scope(slice_subrange(text, percent + 1, text.len())) {
        Some(scope_id) => Some((segments, scope_id)),
        None => None,
    }
}

/// Reads a port.
pub fn parse_port(text: &[char]) -> (port: Option<u16>)
    ensures
        port == port_of(text@),
{
    match parse_bounded(text, 0xffff) {
        Some(n) => Some(n as u16),
        None => None,
    }
}

/// Reads a scope.
pub fn parse_scope(text: &[char]) -> (scope: Option<u32>)
    ensures
        scope == scope_of(text@),
{
    parse_bounded(text, 0xffff_ffff)
}

/// Reads a decimal number of at least one digit that is no more than `max`.
pub fn parse_bounded(text: &[char], max: u32) -> (number: Option<u32>)
    ensures
        match number {
            Some(n) => bounded_decimal(text@, max as nat) == Some(n as nat),
            None => bounded_decimal(text@, max as nat) is None,
        },
{
    if text.len() == 0 {
        return None;
    }
    let mut value: u64 = 0;
    let mut i: usize = 0;
    while i < text.len()
        invariant
            i <= text.len(),
            all_digits(text@.take(i as int)),
            value == digits_value(text@.take(i as int)),
            value <= max,
        decreases text.len() - i,
    {
        let c = text[i];
        if !('0' <= c && c <= '9') {
            return None;
        }
        proof {
            assert(text@.take(i + 1).drop_last() =~= text@.take(i as int));
        }
        value = value * 10 + (c as u64 - '0' as u64);
        if value > max as u64 {
            proof {
                lemma_digits_value_grows(text@, i + 1);
            }
            return None;
        }
        i = i + 1;
    }
    proof {
        assert(text@.take(i as int) =~= text@);
    }
    Some(value as u32)
}

/// Reads a dotted address.
pub fn parse_ipv4(text: &[char]) -> (octets: Option<[u8; 4]>)
    ensures
        match octets {
            Some(o) => ipv4_of(text@) == Some(o@),
            None => ipv4_of(text@) is None,
        },
{
    let parts = split(text, '.');
    if parts.len() != 4 {
        return None;
    }
    let ghost pieces = fields(text@, '.');
    let mut octets: [u8; 4] = [0, 0, 0, 0];
    let mut i: usize = 0;
    while i < 4
        invariant
            i <= 4,
            parts.len() == 4,
            views(parts@) == pieces,
            pieces == fields(text@, '.'),
            forall|j: int| 0 <= j < i ==> octet_of(#[trigger] pieces[j]) == Some(octets@[j]),
        decreases 4 - i,
    {
        assert(pieces[i as int] == parts@[i as int]@);
        match parse_octet(parts[i]) {
            Some(octet) => {
                octets[i] = octet;
            },
            None => {
                return None;
            },
        }
        i = i + 1;
    }
    Some(octets)
}

/// Reads one part of a dotted address.
pub fn parse_octet(text: &[char]) -> (octet: Option<u8>)
    ensures
        octet == octet_of(text@),
{
    if text.len() > 3 || (text.len() > 1 && text[0] == '0') {
        return None;
    }
    match parse_bounded(text, 0xff) {
        Some(n) => Some(n as u8),
        None => None,
    }
}

/// Reads a colon-separated address.
pub fn parse_ipv6(text: &[char]) -> (segments: Option<[u16; 8]>)
    ensures
        match segments {
            Some(s) => ipv6_of(text@) == Some(s@),
            None => ipv6_of(text@) is None,
        },
{
    let gap = find_gap(text);
    let mut segments: [u16; 8] = [0, 0, 0, 0, 0, 0, 0, 0];
    if gap >= text.len() {
        let groups = match parse_groups(text, true) {
            Some(groups) => groups,
            None => {
                return None;
            },
        };
        if groups.len() != 8 {
            return None;
        }
        let mut i: usize = 0;
        while i < 8
            invariant
                i <= 8,
                groups.len() == 8,
                forall|j: int| 0 <= j < i ==> segments@[j] == groups@[j],
            decreases 8 - i,
        {
            segments[i] = groups[i];
            i = i + 1;
        }
        return Some(segments);
    }
    let head = match parse_groups(slice_subrange(text, 0, gap), false) {
        Some(groups) => groups,
        None => {
            return None;
        },
    };
    let tail = match parse_groups(slice_subrange(text, gap + 2, text.len()), true) {
        Some(groups) => groups,
        None => {
            return None;
        },
    };
    if head.len() > 7 || tail.len() > 7 - head.len() {
        return None;
    }
    let skipped = 8 - tail.len();
    let mut i: usize = 0;
    while i < head.len()
        invariant
            i <= head.len() <= 7,
            forall|j: int| 0 <= j < i ==> segments@[j] == head@[j],
            forall|j: int| i <= j < 8 ==> segments@[j] == 0,
        decreases head.len() - i,
    {
        segments[i] = head[i];
        i = i + 1;
    }
    let mut i: usize = 0;
    while i < tail.len()
        invariant
            i <= tail.len(),
            skipped + tail.len() == 8,
            head.len() + tail.len() <= 7,
            forall|j: int| 0 <= j < head.len() ==> segments@[j] == head@[j],
            forall|j: int| head.len() <= j < skipped ==> segments@[j] == 0,
            forall|j: int| 0 <= j < i ==> segments@[skipped + j] == tail@[j],
        decreases tail.len() - i,
    {
        segments[skipped + i] = tail[i];
        i = i + 1;
    }
    assert(segments@ =~= head@ + Seq::new((8 - head.len() - tail.len()) as nat, |i: int| 0u16)
        + tail@);
    Some(segments)
}

/// Finds the first two colons in a row.
pub fn find_gap(text: &[char]) -> (gap: usize)
    ensures
        gap == gap_of(text@),
        gap <= text.len(),
        gap < text.len() ==> gap + 2 <= text.len(),
{
    if text.len() < 2 {
        return text.len();
    }
    let mut gap: usize = 0;
    while gap + 1 < text.len() && !(text[gap] == ':' && text[gap + 1] == ':')
        invariant
            gap < text.len(),
            forall|j: int|
                0 <= j < gap && j + 1 < text.len() ==> !(#[trigger] text@[j] == ':' && text@[j + 1]
                    == ':'),
        decreases text.len() - gap,
    {
        gap = gap + 1;
    }
    if gap + 1 >= text.len() {
        gap = text.len();
    }
    proof {
        lemma_gap_of(text@, gap as int);
    }
    gap
}

/// Reads a list of groups joined by colons.
pub fn parse_groups(text: &[char], dotted: bool) -> (groups: Option<Vec<u16>>)
    ensures
        match groups {
            Some(g) => groups_of(text@, dotted) == Some(g@),
            None => groups_of(text@, dotted) is None,
        },
{
    if text.len() == 0 {
        return Some(Vec::new());
    }
    let parts = split(text, ':');
    let ghost front = fields(text@, ':').drop_last();
    let last = parts.len() - 1;
    let mut groups: Vec<u16> = Vec::new();
    let mut i: usize = 0;
    while i < last
        invariant
            i <= last,
            last + 1 == parts.len(),
            views(parts@) == fields(text@, ':'),
            front == fields(text@, ':').drop_last(),
            groups.len() == i,
            forall|j: int| 0 <= j < i ==> group_of(#[trigger] front[j]) == Some(groups@[j]),
        decreases last - i,
    {
        assert(front[i as int] == parts@[i as int]@);
        match parse_group(parts[i]) {
            Some(group) => {
                groups.push(group);
            },
            None => {
                return None;
            },
        }
        i = i + 1;
    }
    let ghost plain = Seq::new(front.len(), |i: int| group_of(front[i]).unwrap());
    assert(groups@ =~= plain);
    match parse_group(parts[last]) {
        Some(group) => {
            groups.push(group);
            Some(groups)
        },
        None => {
            if !dotted {
                return None;
            }
            match parse_ipv4(parts[last]) {
                Some(octets) => {
                    let high: u16 = (octets[0] as u16) * 256 + (octets[1] as u16);
                    let low: u16 = (octets[2] as u16) * 256 + (octets[3] as u16);
                    groups.push(high);
                    groups.push(low);
                    assert(groups@ =~= plain + groups_of_octets(octets@));
                    Some(groups)
                },
                None => None,
            }
        },
    }
}

/// Reads one group of a colon-separated address.
pub fn parse_group(text: &[char]) -> (group: Option<u16>)
    ensures
        group == group_of(text@),
{
    if text.len() == 0 || text.len() > 4 {
        return None;
    }
    let mut value: u32 = 0;
    let mut i: usize = 0;
    while i < text.len()
        invariant
            i <= text.len() <= 4,
            forall|j: int| 0 <= j < i ==> is_hex_digit(#[trigger] text@[j]),
            value == hex_value(text@.take(i as int)),
            value < pow16(i as nat),
        decreases text.len() - i,
    {
        let c = text[i];
        let digit: u32 = if '0' <= c && c <= '9' {
            c as u32 - '0' as u32
        } else if 'a' <= c && c <= 'f' {
            c as u32 - 'a' as u32 + 10
        } else if 'A' <= c && c <= 'F' {
            c as u32 - 'A' as u32 + 10
        } else {
            return None;
        };
        proof {
            assert(text@.take(i + 1).drop_last() =~= text@.take(i as int));
            reveal_with_fuel(pow16, 5);
        }
        value = value * 16 + digit;
        i = i + 1;
    }
    proof {
        assert(text@.take(i as int) =~= text@);
    }
    Some(value as u16)
}

} // verus!
