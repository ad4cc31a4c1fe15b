use vstd::prelude::*;

verus! {

/// The kernel's "administratively up" interface flag.
pub const IFF_UP: u16 = 0x1;

/// The kernel's "running" interface flag (the link is operational).
pub const IFF_RUNNING: u16 = 0x40;

/// The two bits that bringing an interface up or down touches.
pub const UP_RUNNING: u16 = 0x41;

/// An interface counts as up when both the up bit and the running bit are set.
pub open spec fn spec_flags_are_up(bits: u16) -> bool {
    bits & IFF_UP != 0 && bits & IFF_RUNNING != 0
}

/// The bits other than up and running.
pub open spec fn other_bits(bits: u16) -> u16 {
    bits & !UP_RUNNING
}

/// `bits` with up and running set and every other bit kept.
pub open spec fn spec_set_up_running(bits: u16) -> u16 {
    bits | UP_RUNNING
}

/// `bits` with up and running cleared and every other bit kept.
pub open spec fn spec_clear_up_running(bits: u16) -> u16 {
    bits & !UP_RUNNING
}

/// Whether both the up bit and the running bit are set.
pub fn flags_are_up(bits: u16) -> (r: bool)
    ensures
        r == spec_flags_are_up(bits),
{
    bits & IFF_UP != 0 && bits & IFF_RUNNING != 0
}

/// Sets the up and running bits, keeping every other bit.
pub fn set_up_running(bits: u16) -> (r: u16)
    ensures
        r == spec_set_up_running(bits),
        r & UP_RUNNING == UP_RUNNING,
        other_bits(r) == other_bits(bits),
        spec_flags_are_up(r),
{
    proof {
        lemma_set_up_running(bits);
    }
    bits | UP_RUNNING
}

/// Clears the up and running bits, keeping every other bit.
pub fn clear_up_running(bits: u16) -> (r: u16)
    ensures
        r == spec_clear_up_running(bits),
        r & UP_RUNNING == 0,
        other_bits(r) == other_bits(bits),
        !spec_flags_are_up(r),
{
    proof {
        lemma_clear_up_running(bits);
    }
    bits & !UP_RUNNING
}

/// Setting up and running leaves every other bit as it was, and the
/// result counts as up.
pub proof fn lemma_set_up_running(bits: u16)
    ensures
        spec_set_up_running(bits) & UP_RUNNING == UP_RUNNING,
        other_bits(spec_set_up_running(bits)) == other_bits(bits),
        spec_flags_are_up(spec_set_up_running(bits)),
{
    assert((bits | 0x41u16) & 0x41u16 == 0x41u16) by (bit_vector);
    assert((bits | 0x41u16) & !0x41u16 == bits & !0x41u16) by (bit_vector);
    assert((bits | 0x41u16) & 0x1u16 != 0 && (bits | 0x41u16) & 0x40u16 != 0) by (bit_vector);
}

/// Clearing up and running leaves every other bit as it was, and the
/// result does not count as up.
pub proof fn lemma_clear_up_running(bits: u16)
    ensures
        spec_clear_up_running(bits) & UP_RUNNING == 0,
        other_bits(spec_clear_up_running(bits)) == other_bits(bits),
        !spec_flags_are_up(spec_clear_up_running(bits)),
{
    assert((bits & !0x41u16) & 0x41u16 == 0) by (bit_vector);
    assert((bits & !0x41u16) & !0x41u16 == bits & !0x41u16) by (bit_vector);
    assert((bits & !0x41u16) & 0x1u16 == 0) by (bit_vector);
}

} // verus!
