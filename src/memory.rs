//! Choice of a device memory type for an allocation.
use vstd::prelude::*;

verus! {

/// The most memory types a device reports.
pub const MAX_MEMORY_TYPES: usize = 32;

/// Memory type `i` is allowed by `type_filter` (every type is, without a
/// filter) and has at least one of the `properties` flags.
pub open spec fn memory_type_matches(type_filter: Option<u32>, type_flags: Seq<u32>, properties: u32, i: int) -> bool {
    &&& type_filter is Some ==> (type_filter->0 >> (i as u32)) & 1 == 1
    &&& type_flags[i] & properties != 0
}

/// The first memory type, among `type_flags` (the property flags of each
/// of the device's memory types), that `type_filter` allows and that has one
/// of the `properties` flags; `None` when there is none.
pub fn get_memory_type_index(type_filter: Option<u32>, type_flags: &Vec<u32>, properties: u32) -> (r: Option<u32>)
    requires
        type_flags@.len() <= MAX_MEMORY_TYPES,
    ensures
        r is Some ==> r->0 < type_flags@.len() && memory_type_matches(type_filter, type_flags@, properties, r->0 as int),
        r is Some ==> forall|j: int| 0 <= j < r->0 ==> !memory_type_matches(type_filter, type_flags@, properties, j),
        r is None ==> forall|j: int| 0 <= j < type_flags@.len() ==> !memory_type_matches(type_filter, type_flags@, properties, j),
{
    let mut i: usize = 0;
    while i < type_flags.len()
        invariant
            i <= type_flags@.len() <= MAX_MEMORY_TYPES,
            forall|j: int| 0 <= j < i ==> !memory_type_matches(type_filter, type_flags@, properties, j),
        decreases type_flags@.len() - i,
    {
        let shift = i as u32;
        let allowed = match type_filter {
            Some(filter) => (filter >> shift) & 1 == 1,
            None => true,
        };
        if allowed && type_flags[i] & properties != 0 {
            return Some(i as u32);
        }
        i = i + 1;
    }
    None
}

} // verus!
