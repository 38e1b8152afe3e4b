//! The wake packet: reading a hardware address and laying out the packet that
//! wakes the machine behind it.

use vstd::prelude::*;
use crate::text::chars_of;

verus! {

/// Whether `c` is a hexadecimal digit, in either case.
pub open spec fn is_hex_digit(c: char) -> bool {
    ('0' <= c <= '9') || ('a' <= c <= 'f') || ('A' <= c <= 'F')
}

/// The number that the hexadecimal digit `c` stands for.
pub open spec fn hex_value(c: char) -> nat {
    if '0' <= c <= '9' {
        (c as u32 - '0' as u32) as nat
    } else if 'a' <= c <= 'f' {
        (c as u32 - 'a' as u32 + 10) as nat
    } else {
        (c as u32 - 'A' as u32 + 10) as nat
    }
}

/// Whether `s` is a hardware address: six pairs of hexadecimal digits with a
/// colon or a hyphen between one pair and the next.
pub open spec fn is_mac_address(s: Seq<char>) -> bool {
    &&& s.len() == 17
    &&& forall|i: int|
        0 <= i < 17 ==> if i % 3 == 2 {
            #[trigger] s[i] == ':' || s[i] == '-'
        } else {
            is_hex_digit(s[i])
        }
}

/// The six bytes that the hardware address `s` spells.
pub open spec fn mac_octets(s: Seq<char>) -> Seq<u8> {
    Seq::new(6, |k: int| (hex_value(s[3 * k]) * 16 + hex_value(s[3 * k + 1])) as u8)
}

/// The packet that wakes the machine with the address `octets`: six bytes of
/// 255, then the address sixteen times over.
pub open spec fn magic_packet_of(octets: Seq<u8>) -> Seq<u8> {
    Seq::new(
        102,
        |i: int|
            if i < 6 {
                255u8
            } else {
                octets[(i - 6) % 6]
            },
    )
}

/// The value of one hexadecimal digit, if `c` is one.
fn hex_digit(c: char) -> (r: Option<u8>)
    ensures
        r is Some == is_hex_digit(c),
        r is Some ==> r->0 == hex_value(c) && r->0 < 16,
{
    if c >= '0' && c <= '9' {
        Some((c as u32 - '0' as u32) as u8)
    } else if c >= 'a' && c <= 'f' {
        Some((c as u32 - 'a' as u32 + 10) as u8)
    } else if c >= 'A' && c <= 'F' {
        Some((c as u32 - 'A' as u32 + 10) as u8)
    } else {
        None
    }
}

/// Reads a hardware address. `None` where `text` is not one.
pub fn parse_mac(text: &str) -> (r: Option<Vec<u8>>)
    ensures
        r is Some == is_mac_address(text@),
        r is Some ==> r->0@ == mac_octets(text@),
{
    let chars = chars_of(text);
    if chars.len() != 17 {
        return None;
    }
    let mut octets: Vec<u8> = Vec::new();
    let mut k: usize = 0;
    while k < 6
        invariant
            k <= 6,
            chars@ == text@,
            chars.len() == 17,
            octets.len() == k,
            forall|i: int|
                0 <= i < 3 * k && i < 17 ==> if i % 3 == 2 {
                    #[trigger] chars@[i] == ':' || chars@[i] == '-'
                } else {
                    is_hex_digit(chars@[i])
                },
            forall|j: int|
                0 <= j < k ==> #[trigger] octets@[j] == (hex_value(chars@[3 * j]) * 16 + hex_value(
                    chars@[3 * j + 1],
                )) as u8,
        decreases 6 - k,
    {
        let high = hex_digit(chars[3 * k]);
        let low = hex_digit(chars[3 * k + 1]);
        if high.is_none() || low.is_none() {
            proof {
                assert((3 * k) % 3 != 2 && (3 * k + 1) % 3 != 2);
            }
            return None;
        }
        if k < 5 {
            let sep = chars[3 * k + 2];
            if !(sep == ':' || sep == '-') {
                proof {
                    assert((3 * k + 2) % 3 == 2);
                }
                return None;
            }
        }
        octets.push(high.unwrap() * 16 + low.unwrap());
        proof {
            assert forall|i: int| 0 <= i < 3 * (k + 1) && i < 17 implies if i % 3 == 2 {
                #[trigger] chars@[i] == ':' || chars@[i] == '-'
            } else {
                is_hex_digit(chars@[i])
            } by {
                if i >= 3 * k {
                    assert(i == 3 * k || i == 3 * k + 1 || i == 3 * k + 2);
                }
            }
        }
        k += 1;
    }
    proof {
        assert(octets@ =~= mac_octets(text@));
    }
    Some(octets)
}

/// Lays out the wake packet for the hardware address `mac`. `None` where
/// `mac` is not a hardware address.
pub fn magic_packet(mac: &str) -> (r: Option<Vec<u8>>)
    ensures
        r is Some == is_mac_address(mac@),
        r is Some ==> r->0@ == magic_packet_of(mac_octets(mac@)),
{
    let octets = match parse_mac(mac) {
        Some(octets) => octets,
        None => {
            return None;
        },
    };
    let mut packet: Vec<u8> = Vec::new();
    let mut i: usize = 0;
    while i < 102
        invariant
            i <= 102,
            octets.len() == 6,
            packet.len() == i,
            forall|j: int|
                0 <= j < i ==> #[trigger] packet@[j] == if j < 6 {
                    255u8
                } else {
                    octets@[(j - 6) % 6]
                },
        decreases 102 - i,
    {
        if i < 6 {
            packet.push(255);
        } else {
            packet.push(octets[(i - 6) % 6]);
        }
        i += 1;
    }
    proof {
        assert(packet@ =~= magic_packet_of(octets@));
    }
    Some(packet)
}

} // verus!
