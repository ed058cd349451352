use vstd::prelude::*;

verus! {

/// The two process-wide item counters: the pouch slot that a bottle goes to, and the number
/// of items. Each holds the last value written to it.
pub struct ItemCounters {
    pub bottle_pouch_slot: u32,
    pub number_of_items: u32,
}

pub fn get_bottle_pouch_slot(c: &ItemCounters) -> (r: u32)
    ensures
        r == c.bottle_pouch_slot,
{
    c.bottle_pouch_slot
}

pub fn set_bottle_pouch_slot(c: &mut ItemCounters, val: u32)
    ensures
        final(c).bottle_pouch_slot == val,
        final(c).number_of_items == old(c).number_of_items,
{
    c.bottle_pouch_slot = val;
}

pub fn get_number_of_items(c: &ItemCounters) -> (r: u32)
    ensures
        r == c.number_of_items,
{
    c.number_of_items
}

pub fn set_number_of_items(c: &mut ItemCounters, val: u32)
    ensures
        final(c).number_of_items == val,
        final(c).bottle_pouch_slot == old(c).bottle_pouch_slot,
{
    c.number_of_items = val;
}

} // verus!
