//! What holds of every parameter list, stated over the models that the
//! engine's contracts use.

use vstd::prelude::*;
use crate::deserializer::{scalar_of, single_value_of, tuple_of};
use crate::error::{wrong_number, ErrorModel};
use crate::params::{values_of, Entry};

verus! {

/// The values of a list are as many as its entries and stand in the same
/// order: the value at each position is the value of the entry there.
pub proof fn values_follow_entries(entries: Seq<Entry>)
    ensures
        values_of(entries).len() == entries.len(),
        forall|i: int| 0 <= i < entries.len() ==> #[trigger] values_of(entries)[i] == entries[i].1,
{
}

/// A request for one primitive against a list of any length but one fails
/// with the arity failure that expects one entry and reports the length
/// found, whatever the primitive and whatever the list holds.
pub proof fn scalar_needs_one_entry<T>(
    entries: Seq<Entry>,
    read: spec_fn(Seq<char>) -> Option<T>,
    expected_type: Seq<char>,
)
    requires
        entries.len() != 1,
    ensures
        scalar_of(entries, read, expected_type) == Err::<T, ErrorModel>(
            wrong_number(entries.len(), 1),
        ),
        single_value_of(entries) == Err::<Seq<char>, ErrorModel>(wrong_number(entries.len(), 1)),
{
}

/// A request for a tuple of `len` fields against a list of any other length
/// fails with the arity failure that expects `len` and reports the length
/// found.
pub proof fn tuple_needs_len_entries(entries: Seq<Entry>, len: nat)
    requires
        entries.len() != len,
    ensures
        tuple_of(entries, len) == Err::<Seq<Seq<char>>, ErrorModel>(
            wrong_number(entries.len(), len),
        ),
{
}

/// A request for a tuple of as many fields as the list has entries is served
/// with the values in list order.
pub proof fn tuple_of_full_length(entries: Seq<Entry>)
    ensures
        tuple_of(entries, entries.len()) == Ok::<Seq<Seq<char>>, ErrorModel>(values_of(entries)),
{
}

/// The keys play no part in what a sequence or a tuple is served with: two
/// lists that carry the same values in the same order, under whatever keys,
/// give the same values and the same outcome for a tuple of any arity.
pub proof fn values_ignore_keys(first: Seq<Entry>, second: Seq<Entry>, len: nat)
    requires
        first.len() == second.len(),
        forall|i: int| 0 <= i < first.len() ==> first[i].1 == second[i].1,
    ensures
        values_of(first) == values_of(second),
        tuple_of(first, len) == tuple_of(second, len),
{
    assert(values_of(first) =~= values_of(second));
}

} // verus!
