//! The Wake-on-LAN magic packet: six bytes of `0xFF` followed by sixteen
//! copies of the target's MAC address.

use vstd::prelude::*;

verus! {

/// Number of bytes in a MAC address.
pub const MAC_LEN: usize = 6;

/// Number of times the MAC address is repeated in a magic packet.
pub const MAC_REPEATS: usize = 16;

/// Number of bytes in a magic packet.
pub const PACKET_LEN: usize = 102;

/// The byte of the synchronization stream that opens a magic packet.
pub const SYNC_BYTE: u8 = 0xFF;

/// The magic packet for `mac`, as a sequence of bytes.
pub open spec fn magic_packet(mac: Seq<u8>) -> Seq<u8> {
    Seq::new(
        PACKET_LEN as nat,
        |k: int|
            if k < MAC_LEN {
                SYNC_BYTE
            } else {
                mac[(k - MAC_LEN) % (MAC_LEN as int)]
            },
    )
}

/// The layout of a magic packet: 102 bytes, the first six of them `0xFF`,
/// and each of the sixteen six-byte groups that follow equal to the MAC
/// address.
pub proof fn lemma_magic_packet_layout(mac: Seq<u8>)
    requires
        mac.len() == MAC_LEN,
    ensures
        magic_packet(mac).len() == PACKET_LEN,
        forall|k: int| 0 <= k < MAC_LEN ==> magic_packet(mac)[k] == SYNC_BYTE,
        forall|i: int|
            0 <= i < MAC_REPEATS ==> #[trigger] magic_packet(mac).subrange(
                6 + 6 * i,
                6 + 6 * i + 6,
            ) == mac,
{
    let p = magic_packet(mac);
    assert forall|i: int| 0 <= i < MAC_REPEATS implies #[trigger] p.subrange(
        6 + 6 * i,
        6 + 6 * i + 6,
    ) == mac by {
        let group = p.subrange(6 + 6 * i, 6 + 6 * i + 6);
        assert forall|j: int| 0 <= j < 6 implies group[j] == mac[j] by {
            assert((6 * i + j) % 6 == j) by (nonlinear_arith)
                requires
                    0 <= i,
                    0 <= j < 6,
            ;
        }
        assert(group =~= mac);
    }
}

/// A magic packet is a function of the MAC address alone: two packets built
/// for the same address are byte for byte the same.
pub proof fn lemma_magic_packet_deterministic(mac: [u8; 6], first: [u8; 102], second: [u8; 102])
    requires
        first@ == magic_packet(mac@),
        second@ == magic_packet(mac@),
    ensures
        first == second,
{
    assert(first =~= second);
}

/// Builds the magic packet that wakes the host with the address `mac`.
pub fn build_magic_packet(mac: &[u8; 6]) -> (packet: [u8; 102])
    ensures
        packet@ == magic_packet(mac@),
        packet@.len() == PACKET_LEN,
        forall|k: int| 0 <= k < MAC_LEN ==> packet@[k] == SYNC_BYTE,
        forall|i: int|
            0 <= i < MAC_REPEATS ==> #[trigger] packet@.subrange(6 + 6 * i, 6 + 6 * i + 6)
                == mac@,
{
    let mut packet = [0u8;102];
    let mut k: usize = 0;
    while k < MAC_LEN
        invariant
            k <= MAC_LEN,
            forall|j: int| 0 <= j < k ==> packet@[j] == SYNC_BYTE,
        decreases MAC_LEN - k,
    {
        packet[k] = SYNC_BYTE;
        k += 1;
    }
    let mut i: usize = 0;
    while i < MAC_REPEATS
        invariant
            i <= MAC_REPEATS,
            forall|j: int| 0 <= j < 6 + 6 * i ==> packet@[j] == magic_packet(mac@)[j],
        decreases MAC_REPEATS - i,
    {
        let start: usize = MAC_LEN + i * MAC_LEN;
        let mut j: usize = 0;
        while j < MAC_LEN
            invariant
                i < MAC_REPEATS,
                j <= MAC_LEN,
                start == 6 + 6 * i,
                forall|n: int| 0 <= n < start + j ==> packet@[n] == magic_packet(mac@)[n],
            decreases MAC_LEN - j,
        {
            assert((6 * i + j) % 6 == j as int) by (nonlinear_arith)
                requires
                    0 <= i,
                    0 <= j < 6,
            ;
            packet[start + j] = mac[j];
            j += 1;
        }
        i += 1;
    }
    proof {
        assert(packet@ =~= magic_packet(mac@));
        lemma_magic_packet_layout(mac@);
    }
    packet
}

} // verus!
