//! Structural validation of a candidate vring configuration.
//!
//! Before addresses, sizes and descriptors for a vring are programmed, the
//! candidate configuration must pass a purely structural check: the queue
//! size has to be a power of two, at least one and no larger than the
//! maximum the device reports.  The check is performed here, before any
//! kernel request, so a rejected configuration never has partial effects.

use vstd::prelude::*;

verus! {

/// Configuration data for one vring.
#[derive(Clone, Copy, Debug)]
pub struct VringConfigData {
    /// Maximum queue size the device supports.
    pub queue_max_size: u16,
    /// Actual queue size requested for this vring.
    pub queue_size: u16,
    /// Flags for the vring.
    pub flags: u32,
    /// Guest address of the descriptor table.
    pub desc_table_addr: u64,
    /// Guest address of the used ring.
    pub used_ring_addr: u64,
    /// Guest address of the available ring.
    pub avail_ring_addr: u64,
    /// Optional address of the dirty-page log; absent when logging is off.
    pub log_addr: Option<u64>,
}

/// Region carrying the dirty-page log, as handed to a log-base binding.
#[derive(Clone, Copy, Debug)]
pub struct VhostUserDirtyLogRegion {
    /// Size of the mapped region in bytes.
    pub mmap_size: u64,
    /// Offset of the log within the mapping.
    pub mmap_offset: u64,
    /// Descriptor backing the mapping.
    pub mmap_handle: i64,
}

/// `n` is a power of two: one, two, four, and so on.
pub open spec fn is_power_of_two(n: int) -> bool
    decreases n,
{
    if n <= 0 {
        false
    } else if n == 1 {
        true
    } else {
        n % 2 == 0 && is_power_of_two(n / 2)
    }
}

/// For a nonzero word, clearing the lowest set bit yields zero exactly on
/// the powers of two.
proof fn lemma_pow2_bit_trick(q: u16)
    requires
        1 <= q,
    ensures
        ((q & ((q - 1) as u16)) == 0) <==> is_power_of_two(q as int),
    decreases q,
{
    if q == 1 {
        assert((1u16 & 0u16) == 0) by (bit_vector);
    } else if q % 2 == 1 {
        assert((q & ((q - 1) as u16)) != 0) by (bit_vector)
            requires
                q % 2 == 1 && q > 1,
        ;
    } else {
        let h = (q / 2) as u16;
        lemma_pow2_bit_trick(h);
        assert(((q & ((q - 1) as u16)) == 0) <==> ((h & ((h - 1) as u16)) == 0)) by (bit_vector)
            requires
                q % 2 == 0 && 2 <= q && h == q / 2,
        ;
    }
}

/// The structural predicate a candidate configuration must pass before any
/// vring-configuring kernel request is issued.
pub open spec fn spec_vring_config_valid(c: VringConfigData) -> bool {
    is_power_of_two(c.queue_size as int) && 1 <= c.queue_size && c.queue_size <= c.queue_max_size
}

impl VringConfigData {
    /// Whether dirty-page logging is requested and has an address to log to.
    pub fn is_log_addr_available(&self) -> (r: bool)
        ensures
            r == self.log_addr is Some,
    {
        self.log_addr.is_some()
    }

    /// Structural validity of this configuration.
    ///
    /// Law: exactly the queue sizes that are a power of two, at least one
    /// and at most `queue_max_size` are accepted; zero, every value that is
    /// not a power of two, and every value above the maximum are rejected.
    pub fn is_valid(&self) -> (r: bool)
        ensures
            r == spec_vring_config_valid(*self),
            r == (is_power_of_two(self.queue_size as int) && 1 <= self.queue_size
                && self.queue_size <= self.queue_max_size),
    {
        let q: u16 = self.queue_size;
        if q == 0 {
            false
        } else {
            proof {
                lemma_pow2_bit_trick(q);
            }
            (q & (q - 1)) == 0 && q <= self.queue_max_size
        }
    }
}

} // verus!
