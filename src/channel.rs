//! Layout of the memory region shared with the game: two fixed slots, the
//! game's at the start and the launcher's after it.
use vstd::prelude::*;

use vstd::slice::SliceAdditionalExecFns;

use crate::codec::{decode, holds_record, record_payload, CodecError, Message};

verus! {

/// Size in bytes of the whole shared region.
pub const REGION_SIZE: usize = 0x20000;

/// Size in bytes of one slot.
pub const SLOT_SIZE: usize = 0x10000;

/// One of the two slots, named by the side that writes it.
#[derive(Clone, Copy, Debug, PartialEq, Eq, Structural)]
pub enum Slot {
    Game,
    Launcher,
}

pub open spec fn spec_slot_offset(slot: Slot) -> int {
    match slot {
        Slot::Game => 0,
        Slot::Launcher => SLOT_SIZE as int,
    }
}

/// Offset in the region at which `slot` starts.
pub fn slot_offset(slot: Slot) -> (r: usize)
    ensures
        r == spec_slot_offset(slot),
{
    match slot {
        Slot::Game => 0,
        Slot::Launcher => SLOT_SIZE,
    }
}

/// The bytes of `slot` in `region`.
pub open spec fn slot_bytes(region: Seq<u8>, slot: Slot) -> Seq<u8> {
    region.subrange(spec_slot_offset(slot), spec_slot_offset(slot) + SLOT_SIZE)
}

/// Writes `record` at the start of `slot`, leaving every other byte of the
/// region as it was. Refuses, writing nothing, a region of another size or a
/// record longer than a slot.
pub fn write_slot(region: &mut [u8], slot: Slot, record: &[u8]) -> (ok: bool)
    ensures
        ok == (old(region)@.len() == REGION_SIZE && record@.len() <= SLOT_SIZE),
        final(region)@.len() == old(region)@.len(),
        ok ==> forall|k: int|
            0 <= k < final(region)@.len() ==> #[trigger] final(region)@[k] == if spec_slot_offset(
                slot,
            ) <= k < spec_slot_offset(slot) + record@.len() {
                record@[k - spec_slot_offset(slot)]
            } else {
                old(region)@[k]
            },
        !ok ==> final(region)@ == old(region)@,
{
    if region.len() != REGION_SIZE || record.len() > SLOT_SIZE {
        return false;
    }
    let base = slot_offset(slot);
    let mut i: usize = 0;
    while i < record.len()
        invariant
            base == spec_slot_offset(slot),
            record@.len() <= SLOT_SIZE,
            region@.len() == REGION_SIZE,
            i <= record@.len(),
            forall|k: int|
                0 <= k < region@.len() ==> #[trigger] region@[k] == if base <= k < base + i {
                    record@[k - base]
                } else {
                    old(region)@[k]
                },
        decreases record@.len() - i,
    {
        region.set(base + i, record[i]);
        i = i + 1;
    }
    true
}

/// Reads the record at the start of `slot`; no read leaves the slot.
pub fn read_slot(region: &[u8], slot: Slot) -> (r: Result<Message, CodecError>)
    requires
        region@.len() == REGION_SIZE,
    ensures
        match r {
            Ok(m) => holds_record(slot_bytes(region@, slot)) && m.field_id == slot_bytes(
                region@,
                slot,
            )[0] && m.payload@ == record_payload(slot_bytes(region@, slot)),
            Err(e) => !holds_record(slot_bytes(region@, slot)) && e
                == CodecError::ProtocolViolation,
        },
{
    let base = slot_offset(slot);
    let mut bytes: Vec<u8> = Vec::new();
    let mut i: usize = 0;
    while i < SLOT_SIZE
        invariant
            base == spec_slot_offset(slot),
            region@.len() == REGION_SIZE,
            i <= SLOT_SIZE,
            bytes@ == region@.subrange(base as int, base + i),
        decreases SLOT_SIZE - i,
    {
        bytes.push(region[base + i]);
        assert(bytes@ =~= region@.subrange(base as int, base + i + 1));
        i = i + 1;
    }
    decode(bytes.as_slice())
}

} // verus!
