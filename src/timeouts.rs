//! The host's timeout block: five 32-bit fields, packed little-endian.

use vstd::prelude::*;

verus! {

/// Size in bytes of the packed timeout block.
pub const COMMTIMEOUTS_SIZE: usize = 20;

/// Read and write timeouts of a serial line, in milliseconds.
#[derive(Clone, Copy, Debug, PartialEq, Eq, Structural)]
pub struct COMMTIMEOUTS {
    pub read_interval_timeout: u32,
    pub read_total_timeout_multiplier: u32,
    pub read_total_timeout_constant: u32,
    pub write_total_timeout_multiplier: u32,
    pub write_total_timeout_constant: u32,
}

/// The timeout block with every field set to `ms`.
pub open spec fn uniform_timeouts(ms: u32) -> COMMTIMEOUTS {
    COMMTIMEOUTS {
        read_interval_timeout: ms,
        read_total_timeout_multiplier: ms,
        read_total_timeout_constant: ms,
        write_total_timeout_multiplier: ms,
        write_total_timeout_constant: ms,
    }
}

/// The four little-endian bytes of `v`.
pub open spec fn le_u32_bytes(v: u32) -> Seq<u8> {
    seq![v as u8, (v >> 8u32) as u8, (v >> 16u32) as u8, (v >> 24u32) as u8]
}

/// The packed image of a timeout block: each field in order.
pub open spec fn timeouts_bytes(t: COMMTIMEOUTS) -> Seq<u8> {
    le_u32_bytes(t.read_interval_timeout) + le_u32_bytes(t.read_total_timeout_multiplier)
        + le_u32_bytes(t.read_total_timeout_constant) + le_u32_bytes(
        t.write_total_timeout_multiplier,
    ) + le_u32_bytes(t.write_total_timeout_constant)
}

fn push_le_u32(out: &mut Vec<u8>, v: u32)
    ensures
        final(out)@ == old(out)@ + le_u32_bytes(v),
{
    out.push(v as u8);
    out.push((v >> 8u32) as u8);
    out.push((v >> 16u32) as u8);
    out.push((v >> 24u32) as u8);
    assert(final(out)@ =~= old(out)@ + le_u32_bytes(v));
}

impl COMMTIMEOUTS {
    /// A fixed-timeout policy: all five fields set to `timeout_ms`.
    pub fn uniform(timeout_ms: u32) -> (r: COMMTIMEOUTS)
        ensures
            r == uniform_timeouts(timeout_ms),
    {
        COMMTIMEOUTS {
            read_interval_timeout: timeout_ms,
            read_total_timeout_multiplier: timeout_ms,
            read_total_timeout_constant: timeout_ms,
            write_total_timeout_multiplier: timeout_ms,
            write_total_timeout_constant: timeout_ms,
        }
    }

    /// The packed image of this block, as the host expects it.
    pub fn encode(&self) -> (r: Vec<u8>)
        ensures
            r@ == timeouts_bytes(*self),
            r@.len() == COMMTIMEOUTS_SIZE,
    {
        let mut out: Vec<u8> = Vec::new();
        push_le_u32(&mut out, self.read_interval_timeout);
        push_le_u32(&mut out, self.read_total_timeout_multiplier);
        push_le_u32(&mut out, self.read_total_timeout_constant);
        push_le_u32(&mut out, self.write_total_timeout_multiplier);
        push_le_u32(&mut out, self.write_total_timeout_constant);
        assert(out@ =~= timeouts_bytes(*self));
        out
    }
}

} // verus!
