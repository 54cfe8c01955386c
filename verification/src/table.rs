//! Lookup in the tables that map the index of a control to what the device
//! calls it, and back.

use vstd::prelude::*;
use crate::signal_source::SignalAddr;

verus! {

/// Whether `i` is the first place at which `list` holds `value`.
pub open spec fn is_position<T>(list: Seq<T>, value: T, i: int) -> bool {
    &&& 0 <= i < list.len()
    &&& list[i] == value
    &&& forall|j: int| 0 <= j < i ==> list[j] != value
}

/// The first place at which `list` holds `value`, if it holds it at all.
pub open spec fn position<T>(list: Seq<T>, value: T) -> Option<int> {
    if exists|i: int| is_position(list, value, i) {
        Some(choose|i: int| is_position(list, value, i))
    } else {
        None
    }
}

/// Whether no value stands at two places of `list`.
pub open spec fn distinct<T>(list: Seq<T>) -> bool {
    forall|i: int, j: int| 0 <= i < j < list.len() ==> list[i] != list[j]
}

/// There is one first place at most.
pub proof fn position_is_first<T>(list: Seq<T>, value: T, i: int)
    requires
        is_position(list, value, i),
    ensures
        position(list, value) == Some(i),
{
    let chosen = choose|k: int| is_position(list, value, k);
    assert(is_position(list, value, chosen));
    if chosen < i {
        assert(list[chosen] != value);
    } else if i < chosen {
        assert(list[i] != value);
    }
}

/// A value that the list lacks has no place.
pub proof fn position_of_absent<T>(list: Seq<T>, value: T)
    requires
        forall|j: int| 0 <= j < list.len() ==> list[j] != value,
    ensures
        position(list, value).is_none(),
{
}

/// What a lookup finds lies inside the list and holds the value.
pub proof fn position_in_bounds<T>(list: Seq<T>, value: T)
    ensures
        match position(list, value) {
            Some(i) => 0 <= i < list.len() && list[i] == value,
            None => !list.contains(value),
        },
{
    if exists|i: int| is_position(list, value, i) {
        let chosen = choose|k: int| is_position(list, value, k);
        assert(is_position(list, value, chosen));
    } else {
        if list.contains(value) {
            let k = choose|k: int| 0 <= k < list.len() && list[k] == value;
            first_place_exists(list, value, k);
        }
    }
}

/// A value that stands somewhere has a first place.
proof fn first_place_exists<T>(list: Seq<T>, value: T, k: int)
    requires
        0 <= k < list.len(),
        list[k] == value,
    ensures
        exists|i: int| is_position(list, value, i),
    decreases k,
{
    if forall|j: int| 0 <= j < k ==> list[j] != value {
        assert(is_position(list, value, k));
    } else {
        let j = choose|j: int| 0 <= j < k && list[j] == value;
        first_place_exists(list, value, j);
    }
}

/// In a list without repetition every place is the first place of its
/// value.
pub proof fn position_of_entry<T>(list: Seq<T>, i: int)
    requires
        distinct(list),
        0 <= i < list.len(),
    ensures
        position(list, list[i]) == Some(i),
{
    assert(is_position(list, list[i], i));
    position_is_first(list, list[i], i);
}

/// Finds the first place of a sampling frequency.
pub fn position_u32(list: &[u32], value: u32) -> (found: Option<usize>)
    ensures
        match position(list@, value) {
            Some(i) => found == Some(i as usize),
            None => found.is_none(),
        },
{
    let mut i: usize = 0;
    while i < list.len()
        invariant
            i <= list.len(),
            forall|j: int| 0 <= j < i ==> list@[j] != value,
        decreases list.len() - i,
    {
        if list[i] == value {
            proof {
                position_is_first(list@, value, i as int);
            }
            return Some(i);
        }
        i = i + 1;
    }
    proof {
        position_of_absent(list@, value);
    }
    None
}

/// Finds the first place of a byte.
pub fn position_u8(list: &[u8], value: u8) -> (found: Option<usize>)
    ensures
        match position(list@, value) {
            Some(i) => found == Some(i as usize),
            None => found.is_none(),
        },
{
    let mut i: usize = 0;
    while i < list.len()
        invariant
            i <= list.len(),
            forall|j: int| 0 <= j < i ==> list@[j] != value,
        decreases list.len() - i,
    {
        if list[i] == value {
            proof {
                position_is_first(list@, value, i as int);
            }
            return Some(i);
        }
        i = i + 1;
    }
    proof {
        position_of_absent(list@, value);
    }
    None
}

/// Finds the first place of a plug.
pub fn position_signal_addr(list: &[SignalAddr], value: SignalAddr) -> (found: Option<usize>)
    ensures
        match position(list@, value) {
            Some(i) => found == Some(i as usize),
            None => found.is_none(),
        },
{
    let mut i: usize = 0;
    while i < list.len()
        invariant
            i <= list.len(),
            forall|j: int| 0 <= j < i ==> list@[j] != value,
        decreases list.len() - i,
    {
        if list[i] == value {
            proof {
                position_is_first(list@, value, i as int);
            }
            return Some(i);
        }
        i = i + 1;
    }
    proof {
        position_of_absent(list@, value);
    }
    None
}

} // verus!
