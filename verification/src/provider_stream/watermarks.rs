//! The confirmed and finalized slots that a provider has reported.
use crate::event::TxCommitmentStatus;
use vstd::prelude::*;

verus! {

/// The highest confirmed and finalized slots seen from one provider.
#[derive(Clone, Copy, Debug, PartialEq, Eq, Structural)]
pub struct ProviderCommitmentWatermarks {
    /// Highest confirmed slot.
    pub confirmed_slot: Option<u64>,
    /// Highest finalized slot.
    pub finalized_slot: Option<u64>,
}

/// A watermark raised to include a slot.
pub open spec fn raised(mark: Option<u64>, slot: u64) -> Option<u64> {
    match mark {
        Some(prev) => Some(if slot > prev {
            slot
        } else {
            prev
        }),
        None => Some(slot),
    }
}

/// Whether watermark `b` stands at or above watermark `a`.
pub open spec fn at_or_above(b: Option<u64>, a: Option<u64>) -> bool {
    match a {
        Some(low) => b matches Some(high) && high >= low,
        None => true,
    }
}

/// Raises a watermark to include a slot.
pub fn raise(mark: Option<u64>, slot: u64) -> (r: Option<u64>)
    ensures
        r == raised(mark, slot),
{
    match mark {
        Some(prev) => if slot > prev {
            Some(slot)
        } else {
            Some(prev)
        },
        None => Some(slot),
    }
}

impl Default for ProviderCommitmentWatermarks {
    fn default() -> (r: Self)
        ensures
            r == (ProviderCommitmentWatermarks { confirmed_slot: None, finalized_slot: None }),
    {
        ProviderCommitmentWatermarks { confirmed_slot: None, finalized_slot: None }
    }
}

impl ProviderCommitmentWatermarks {
    /// Every finalized slot is confirmed too.
    pub open spec fn ordered(self) -> bool {
        at_or_above(self.confirmed_slot, self.finalized_slot)
    }

    /// The watermarks after a slot was seen at a commitment.
    pub open spec fn observed(self, slot: u64, commitment: TxCommitmentStatus) -> Self {
        match commitment {
            TxCommitmentStatus::Processed => self,
            TxCommitmentStatus::Confirmed => ProviderCommitmentWatermarks {
                confirmed_slot: raised(self.confirmed_slot, slot),
                ..self
            },
            TxCommitmentStatus::Finalized => ProviderCommitmentWatermarks {
                confirmed_slot: raised(self.confirmed_slot, slot),
                finalized_slot: raised(self.finalized_slot, slot),
            },
        }
    }

    /// Takes one transaction's slot and commitment into account.
    pub fn observe_transaction_commitment(&mut self, slot: u64, commitment_status: TxCommitmentStatus)
        ensures
            *final(self) == old(self).observed(slot, commitment_status),
    {
        match commitment_status {
            TxCommitmentStatus::Processed => {},
            TxCommitmentStatus::Confirmed => self.observe_confirmed_slot(slot),
            TxCommitmentStatus::Finalized => self.observe_finalized_slot(slot),
        }
    }

    /// Raises the confirmed watermark to include one slot.
    pub fn observe_confirmed_slot(&mut self, slot: u64)
        ensures
            *final(self) == old(self).observed(slot, TxCommitmentStatus::Confirmed),
    {
        self.confirmed_slot = raise(self.confirmed_slot, slot);
    }

    /// Raises both watermarks to include one finalized slot.
    pub fn observe_finalized_slot(&mut self, slot: u64)
        ensures
            *final(self) == old(self).observed(slot, TxCommitmentStatus::Finalized),
    {
        self.observe_confirmed_slot(slot);
        self.finalized_slot = raise(self.finalized_slot, slot);
    }
}

/// Takes an account's or a block's slot and commitment into account.
pub fn observe_non_transaction_commitment(
    watermarks: &mut ProviderCommitmentWatermarks,
    slot: u64,
    commitment_status: TxCommitmentStatus,
)
    ensures
        *final(watermarks) == old(watermarks).observed(slot, commitment_status),
{
    watermarks.observe_transaction_commitment(slot, commitment_status);
}

/// Watermarks only rise, and the finalized one never overtakes the confirmed one.
pub proof fn watermarks_rise(marks: ProviderCommitmentWatermarks, slot: u64, commitment: TxCommitmentStatus)
    ensures
        at_or_above(marks.observed(slot, commitment).confirmed_slot, marks.confirmed_slot),
        at_or_above(marks.observed(slot, commitment).finalized_slot, marks.finalized_slot),
        marks.ordered() ==> marks.observed(slot, commitment).ordered(),
{
}

/// The order in which two slots are seen at one commitment does not matter.
pub proof fn watermarks_forget_order(
    marks: ProviderCommitmentWatermarks,
    a: u64,
    b: u64,
    commitment: TxCommitmentStatus,
)
    ensures
        marks.observed(a, commitment).observed(b, commitment) == marks.observed(b, commitment).observed(
            a,
            commitment,
        ),
{
}

/// A slot seen at processed commitment moves no watermark. One seen confirmed moves the confirmed
/// watermark up to it, one seen finalized both; neither is moved beyond the slot, nor down.
pub proof fn observed_slot_is_marked(
    marks: ProviderCommitmentWatermarks,
    slot: u64,
    commitment: TxCommitmentStatus,
)
    ensures
        ({
            let after = marks.observed(slot, commitment);
            &&& commitment is Processed ==> after == marks
            &&& !(commitment is Finalized) ==> after.finalized_slot == marks.finalized_slot
            &&& !(commitment is Processed) ==> {
                &&& after.confirmed_slot is Some
                &&& after.confirmed_slot->0 >= slot
                &&& after.confirmed_slot == Some(slot) || after.confirmed_slot == marks.confirmed_slot
                &&& marks.confirmed_slot is Some ==> after.confirmed_slot->0 >= marks.confirmed_slot->0
            }
            &&& commitment is Finalized ==> {
                &&& after.finalized_slot is Some
                &&& after.finalized_slot->0 >= slot
                &&& after.finalized_slot == Some(slot) || after.finalized_slot == marks.finalized_slot
                &&& marks.finalized_slot is Some ==> after.finalized_slot->0 >= marks.finalized_slot->0
            }
        }),
{
}

/// A watermark raised by a slot is the higher of the two, or the slot where there was none.
pub proof fn raised_mark_is_the_higher(mark: Option<u64>, slot: u64)
    ensures
        raised(mark, slot) is Some,
        raised(mark, slot)->0 >= slot,
        mark is Some ==> raised(mark, slot)->0 >= mark->0,
        raised(mark, slot) == Some(slot) || raised(mark, slot) == mark,
{
}

} // verus!
