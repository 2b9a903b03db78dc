//! Chunk reassembly protocol for the bulk-transfer channel.
//!
//! Each inbound datagram carries a fixed eight-byte header — a signed 32-bit
//! offset, then an unsigned 32-bit size, both little-endian (the target's
//! native order) — followed by payload bytes. A negative offset is the
//! "render now" sentinel; otherwise the payload is written into the display
//! controller's framebuffer at that offset. Lost, duplicated or reordered
//! datagrams are each handled independently: a write is an idempotent
//! last-write-wins upsert, never an append.

use vstd::prelude::*;
use vstd::bytes::{spec_u32_from_le_bytes, u32_from_le_bytes};
use vstd::slice::slice_subrange;
use crate::epd::{apply_chunk, chunk_fits, render_seq, BusOp, DisplayState, EPDMgr};

verus! {

/// Bytes of the fixed header prefixing each datagram.
pub const HEADER_LEN: usize = 8;

/// The signed reading of a 32-bit word, two's complement.
pub open spec fn signed32(u: u32) -> int {
    if u >= 0x8000_0000 {
        u - 0x1_0000_0000
    } else {
        u as int
    }
}

/// The offset field encoded in a datagram's first four bytes.
pub open spec fn spec_offset(d: Seq<u8>) -> int {
    signed32(spec_u32_from_le_bytes(d.subrange(0, 4)))
}

/// The size field encoded in a datagram's next four bytes.
pub open spec fn spec_size(d: Seq<u8>) -> u32 {
    spec_u32_from_le_bytes(d.subrange(4, 8))
}

/// The parsed header of one datagram; ephemeral, not retained.
#[derive(Clone, Copy, Debug, PartialEq, Eq, Structural)]
pub struct ChunkHeader {
    pub offset: i32,
    pub size: u32,
}

/// Parses the eight-byte header prefixing a datagram. A shorter datagram
/// has no header and is discarded by the caller.
pub fn decode_header(data: &[u8]) -> (r: Option<ChunkHeader>)
    ensures
        data@.len() < HEADER_LEN ==> r is None,
        data@.len() >= HEADER_LEN ==> (r matches Some(h) && h.offset as int == spec_offset(data@)
            && h.size == spec_size(data@)),
{
    if data.len() < HEADER_LEN {
        return None;
    }
    let raw = u32_from_le_bytes(slice_subrange(data, 0, 4));
    let size = u32_from_le_bytes(slice_subrange(data, 4, 8));
    let offset: i32 = if raw >= 0x8000_0000 {
        ((raw as i64) - 0x1_0000_0000i64) as i32
    } else {
        raw as i32
    };
    Some(ChunkHeader { offset, size })
}

/// What the chunk path did with one datagram.
#[derive(Clone, Copy, Debug, PartialEq, Eq, Structural)]
pub enum DatagramOutcome {
    /// Shorter than a header; ignored.
    Discarded,
    /// Render sentinel: the framebuffer was transmitted unchanged.
    Rendered,
    /// Payload written into the framebuffer.
    Written,
    /// The write did not fit and was dropped whole.
    Overflow,
}

/// Handles one inbound datagram: discards it if it has no full header,
/// renders on the negative-offset sentinel (the framebuffer is never
/// mutated), and otherwise upserts the payload into the framebuffer at the
/// header's offset. Returns what happened and the bus operations to drive
/// (empty unless a render was triggered).
pub fn handle_datagram(epd: &mut EPDMgr, data: &[u8]) -> (r: (DatagramOutcome, Vec<BusOp>))
    ensures
        ({
            let d = data@;
            &&& d.len() < HEADER_LEN ==> (r.0 == DatagramOutcome::Discarded && *final(epd) == *old(
                epd,
            ) && r.1@ == Seq::<BusOp>::empty())
            &&& d.len() >= HEADER_LEN ==> ({
                let off = spec_offset(d);
                let size = spec_size(d);
                let chunk = d.skip(HEADER_LEN as int);
                if off < 0 {
                    &&& r.0 == DatagramOutcome::Rendered
                    &&& final(epd).frame == old(epd).frame
                    &&& final(epd).state == DisplayState::Idle
                    &&& r.1@ == render_seq(old(epd).frame@)
                } else {
                    &&& final(epd).frame@ == apply_chunk(
                        old(epd).frame@,
                        chunk,
                        off as nat,
                        size as nat,
                    )
                    &&& final(epd).state == old(epd).state
                    &&& r.1@ == Seq::<BusOp>::empty()
                    &&& r.0 == if chunk_fits(old(epd).frame@, chunk, off as nat, size as nat) {
                        DatagramOutcome::Written
                    } else {
                        DatagramOutcome::Overflow
                    }
                }
            })
        }),
{
    let h = match decode_header(data) {
        Some(h) => h,
        None => {
            return (DatagramOutcome::Discarded, Vec::new());
        },
    };
    if h.offset < 0 {
        let ops = epd.display_frame();
        return (DatagramOutcome::Rendered, ops);
    }
    let chunk = slice_subrange(data, HEADER_LEN, data.len());
    match epd.update_frame(chunk, h.offset as usize, h.size as usize) {
        Ok(()) => (DatagramOutcome::Written, Vec::new()),
        Err(_) => (DatagramOutcome::Overflow, Vec::new()),
    }
}

} // verus!
