//! IP addresses and their form in a certificate.
use vstd::prelude::*;

verus! {

/// An IP address: the octets of an IPv4 address, or the segments of an IPv6 address.
#[derive(Clone, Copy, Debug, PartialEq, Eq)]
pub enum IpAddr {
    V4([u8; 4]),
    V6([u16; 8]),
}

impl IpAddr {
    /// The octets of the address in network order: four for IPv4, sixteen for IPv6.
    pub open spec fn octets(self) -> Seq<u8> {
        match self {
            IpAddr::V4(octets) => octets@,
            IpAddr::V6(segments) => Seq::new(
                16,
                |i: int|
                    if i % 2 == 0 {
                        (segments@[i / 2] / 256) as u8
                    } else {
                        (segments@[i / 2] % 256) as u8
                    },
            ),
        }
    }
}

/// The address that a text denotes as `core::net::IpAddr` reads it, if it denotes one.
pub uninterp spec fn parsed_ip(text: Seq<char>) -> Option<IpAddr>;

/// `str::parse` for `core::net::IpAddr`: what it gives, an IPv4 address, an IPv6 address or an
/// error, is fixed by the text. Which texts denote which addresses is not said here.
#[verifier::external_body]
pub(crate) fn parse_ip(text: &str) -> (ip: Option<IpAddr>)
    ensures
        ip == parsed_ip(text@),
{
    match text.parse::<core::net::IpAddr>() {
        Ok(core::net::IpAddr::V4(addr)) => Some(IpAddr::V4(addr.octets())),
        Ok(core::net::IpAddr::V6(addr)) => Some(IpAddr::V6(addr.segments())),
        Err(_) => None,
    }
}

/// Two octets in network order make up a segment exactly if they are its upper and its lower half.
proof fn lemma_segment(upper: u8, lower: u8, segment: u16)
    ensures
        ((upper as u16) << 8) | lower as u16 == segment <==> upper == (segment / 256) as u8
            && lower == (segment % 256) as u8,
{
    assert(((upper as u16) << 8) | lower as u16 == segment <==> upper == (segment / 256) as u8
        && lower == (segment % 256) as u8) by (bit_vector);
}

/// Whether the raw address of a certificate is the expected address.
pub fn matches_ip(expected: &IpAddr, actual: &[u8]) -> (matched: bool)
    ensures
        matched == (actual@ == expected.octets()),
{
    match expected {
        IpAddr::V4(octets) => {
            if actual.len() != 4 {
                return false;
            }
            let mut i: usize = 0;
            while i < 4
                invariant
                    i <= 4,
                    actual@.len() == 4,
                    *expected == IpAddr::V4(*octets),
                    forall|j: int| 0 <= j < i ==> actual@[j] == octets@[j],
                decreases 4 - i,
            {
                if actual[i] != octets[i] {
                    return false;
                }
                i += 1;
            }
            assert(actual@ =~= octets@);
            true
        },
        IpAddr::V6(segments) => {
            if actual.len() != 16 {
                return false;
            }
            let mut i: usize = 0;
            while i < 8
                invariant
                    i <= 8,
                    actual@.len() == 16,
                    *expected == IpAddr::V6(*segments),
                    forall|j: int|
                        0 <= j < 2 * i ==> #[trigger] actual@[j] == expected.octets()[j],
                decreases 8 - i,
            {
                let upper: u8 = actual[2 * i];
                let lower: u8 = actual[2 * i + 1];
                let segment: u16 = ((upper as u16) << 8) | lower as u16;
                proof {
                    lemma_segment(upper, lower, segments@[i as int]);
                    assert(expected.octets()[2 * i] == (segments@[i as int] / 256) as u8);
                    assert(expected.octets()[2 * i + 1] == (segments@[i as int] % 256) as u8);
                }
                if segment != segments[i] {
                    return false;
                }
                i += 1;
            }
            assert(actual@ =~= expected.octets());
            true
        },
    }
}

/// An address of one family never matches the raw address of the other, and no other length
/// matches at all.
pub proof fn law_length_tells_the_family(expected: IpAddr, actual: Seq<u8>)
    requires
        actual == expected.octets(),
    ensures
        actual.len() == 4 <==> expected is V4,
        actual.len() == 16 <==> expected is V6,
{
}

/// A raw address matches one address at most.
pub proof fn law_octets_are_unique(one: IpAddr, other: IpAddr)
    requires
        one.octets() == other.octets(),
    ensures
        one == other,
{
    match (one, other) {
        (IpAddr::V4(a), IpAddr::V4(b)) => {
            assert(a =~= b);
        },
        (IpAddr::V6(a), IpAddr::V6(b)) => {
            assert forall|i: int| 0 <= i < 8 implies a@[i] == b@[i] by {
                assert(one.octets()[2 * i] == (a@[i] / 256) as u8);
                assert(one.octets()[2 * i + 1] == (a@[i] % 256) as u8);
                assert(other.octets()[2 * i] == (b@[i] / 256) as u8);
                assert(other.octets()[2 * i + 1] == (b@[i] % 256) as u8);
                lemma_segment((a@[i] / 256) as u8, (a@[i] % 256) as u8, a@[i]);
                lemma_segment((b@[i] / 256) as u8, (b@[i] % 256) as u8, b@[i]);
            }
            assert(a =~= b);
        },
        _ => {
            law_length_tells_the_family(one, one.octets());
            law_length_tells_the_family(other, other.octets());
        },
    }
}

/// The raw form of an IPv4 address is its four octets, in order.
pub proof fn law_ipv4_octet_by_octet(octets: [u8; 4], actual: Seq<u8>)
    ensures
        actual == IpAddr::V4(octets).octets() <==> actual.len() == 4 && forall|i: int|
            0 <= i < 4 ==> actual[i] == octets@[i],
{
    if actual.len() == 4 && forall|i: int| 0 <= i < 4 ==> actual[i] == octets@[i] {
        assert(actual =~= octets@);
    }
}

/// Two numbers are the upper and the lower half of a segment exactly if they add up to it so.
proof fn lemma_halves(upper: u8, lower: u8, segment: u16)
    ensures
        upper * 256 + lower == segment <==> upper == (segment / 256) as u8 && lower == (segment
            % 256) as u8,
{
}

/// The raw form of an IPv6 address is its eight segments, in order, each with its upper octet
/// before its lower one.
pub proof fn law_ipv6_segment_by_segment(segments: [u16; 8], actual: Seq<u8>)
    ensures
        actual == IpAddr::V6(segments).octets() <==> actual.len() == 16 && forall|i: int|
            0 <= i < 8 ==> actual[2 * i] * 256 + actual[2 * i + 1] == #[trigger] segments@[i],
{
    let octets = IpAddr::V6(segments).octets();
    if actual == octets {
        assert forall|i: int| 0 <= i < 8 implies actual[2 * i] * 256 + actual[2 * i + 1]
            == #[trigger] segments@[i] by {
            lemma_halves(actual[2 * i], actual[2 * i + 1], segments@[i]);
        }
    }
    if actual.len() == 16 && forall|i: int|
        0 <= i < 8 ==> actual[2 * i] * 256 + actual[2 * i + 1] == #[trigger] segments@[i] {
        assert forall|j: int| 0 <= j < 16 implies actual[j] == octets[j] by {
            let i = j / 2;
            lemma_halves(actual[2 * i], actual[2 * i + 1], segments@[i]);
        }
        assert(actual =~= octets);
    }
}

} // verus!
