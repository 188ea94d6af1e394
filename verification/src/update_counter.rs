//! Pacing of the state packets that the audio thread sends to the editor.

use vstd::prelude::*;

verus! {

/// Number of process blocks from one state packet to the next.
pub const PACKET_INTERVAL: u32 = 4;

/// The counter after one process block, and whether a packet goes out.
pub open spec fn count_step(count: nat) -> (bool, nat) {
    if count + 1 >= PACKET_INTERVAL {
        (true, 0)
    } else {
        (false, count + 1)
    }
}

/// The counter after `blocks` process blocks.
pub open spec fn count_after(count: nat, blocks: nat) -> nat
    decreases blocks,
{
    if blocks == 0 {
        count
    } else {
        count_after(count_step(count).1, (blocks - 1) as nat)
    }
}

/// The number of packets sent during `blocks` process blocks.
pub open spec fn packets_during(count: nat, blocks: nat) -> nat
    decreases blocks,
{
    if blocks == 0 {
        0
    } else {
        (if count_step(count).0 {
            1nat
        } else {
            0nat
        }) + packets_during(count_step(count).1, (blocks - 1) as nat)
    }
}

/// Counts process blocks and says when the next state packet is due.
pub struct UpdateCounter {
    count: u32,
}

impl View for UpdateCounter {
    type V = nat;

    closed spec fn view(&self) -> nat {
        self.count as nat
    }
}

impl UpdateCounter {
    #[verifier::type_invariant]
    spec fn inv(self) -> bool {
        self.count < PACKET_INTERVAL
    }

    /// A counter at the start of an interval.
    pub fn new() -> (r: Self)
        ensures
            r@ == 0,
    {
        UpdateCounter { count: 0 }
    }

    /// Blocks counted since the last packet; always below the interval.
    pub fn count(&self) -> (r: u32)
        ensures
            r == self@,
            r < PACKET_INTERVAL,
    {
        proof {
            use_type_invariant(self);
        }
        self.count
    }

    /// One process block has run: returns whether a state packet is due now,
    /// and starts a new interval when it is.
    pub fn tick(&mut self) -> (send: bool)
        ensures
            (send, final(self)@) == count_step(old(self)@),
    {
        proof {
            use_type_invariant(&*self);
        }
        let next = self.count + 1;
        if next >= PACKET_INTERVAL {
            *self = UpdateCounter { count: 0 };
            true
        } else {
            *self = UpdateCounter { count: next };
            false
        }
    }
}

/// Packets go out once every `PACKET_INTERVAL` blocks: from a counter at
/// `count`, after `blocks` process blocks the counter is at
/// `(count + blocks) % PACKET_INTERVAL` and `(count + blocks) / PACKET_INTERVAL`
/// packets have been sent.
pub proof fn law_one_packet_per_interval(count: nat, blocks: nat)
    requires
        count < PACKET_INTERVAL,
    ensures
        count_after(count, blocks) == (count + blocks) % (PACKET_INTERVAL as nat),
        packets_during(count, blocks) == (count + blocks) / (PACKET_INTERVAL as nat),
        count == 0 ==> packets_during(count, blocks) == blocks / 4,
    decreases blocks,
{
    if blocks > 0 {
        let next = count_step(count).1;
        law_one_packet_per_interval(next, (blocks - 1) as nat);
        assert(next + (blocks - 1) == (count + blocks) - (if count_step(count).0 { 4int } else { 0int }));
        assert((count + blocks) % 4 == ((count + blocks) - 4) % 4 || !count_step(count).0);
    }
}

} // verus!
