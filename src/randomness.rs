//! The oracle's randomness record, as far as settlement reads it.
use vstd::prelude::*;
use switchboard_on_demand::{OnDemandError, RandomnessAccountData};
use crate::draw::le_value;

verus! {

#[verifier::external_type_specification]
#[verifier::external_body]
pub struct ExOnDemandError(OnDemandError);

/// The fields of an oracle randomness record that settlement needs.
#[derive(Clone, Copy, Debug)]
pub struct RandomnessRecord {
    /// The slot whose hash seeded the commitment.
    pub seed_slot: u64,
    /// The slot at which the value was revealed.
    pub reveal_slot: u64,
    /// The revealed random bytes.
    pub value: [u8; 32],
}

/// Bytes that open every randomness record.
pub open spec fn randomness_discriminator() -> Seq<u8> {
    seq![10u8, 66, 229, 135, 220, 239, 217, 114]
}

/// Eight discriminator bytes, then the 400-byte record.
pub open spec fn randomness_layout_ok(data: Seq<u8>) -> bool {
    data.len() >= 408 && data.subrange(0, 8) == randomness_discriminator()
}

/// The record's fields where the layout places them: the seed slot at
/// bytes 104..112, the reveal slot at 144..152 (both little-endian), the
/// value at 152..184.
pub open spec fn record_read_from(rec: RandomnessRecord, data: Seq<u8>) -> bool {
    &&& rec.seed_slot == le_value(data.subrange(104, 112))
    &&& rec.reveal_slot == le_value(data.subrange(144, 152))
    &&& rec.value@ == data.subrange(152, 184)
}

/// Relies on `RandomnessAccountData::parse`: it refuses data shorter than
/// the record or without its discriminator, and otherwise reads the
/// `#[repr(C)]` record after the discriminator (it may still refuse a
/// misaligned buffer).
#[verifier::external_body]
pub(crate) fn parse_randomness(data: &[u8]) -> (r: Result<RandomnessRecord, OnDemandError>)
    ensures
        r is Ok ==> randomness_layout_ok(data@) && record_read_from(r->Ok_0, data@),
        !randomness_layout_ok(data@) ==> r is Err,
{
    let mut bytes = data.to_vec();
    let cell = std::cell::RefCell::new(bytes.as_mut_slice());
    let out = match RandomnessAccountData::parse(cell.borrow()) {
        Ok(d) => Ok(RandomnessRecord { seed_slot: d.seed_slot, reveal_slot: d.reveal_slot, value: d.value }),
        Err(e) => Err(e),
    };
    out
}

impl RandomnessRecord {
    /// The revealed value, available only in the slot it was revealed in.
    pub fn value_at(&self, clock_slot: u64) -> (r: Option<[u8; 32]>)
        ensures
            clock_slot == self.reveal_slot ==> r == Some(self.value),
            clock_slot != self.reveal_slot ==> r is None,
    {
        if clock_slot != self.reveal_slot {
            None
        } else {
            Some(self.value)
        }
    }
}

} // verus!
