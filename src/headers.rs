use vstd::prelude::*;

verus! {

/// The values that the header table `h` holds under `name`, in order.
/// A table is a sequence of (name, value) pairs; names are compared as
/// they stand, as hosts keep them in lower case.
pub open spec fn values_of(h: Seq<(Seq<char>, Seq<char>)>, name: Seq<char>) -> Seq<Seq<char>>
    decreases h.len(),
{
    if h.len() == 0 {
        Seq::empty()
    } else {
        let rest = values_of(h.drop_last(), name);
        if h.last().0 == name {
            rest.push(h.last().1)
        } else {
            rest
        }
    }
}

/// The table `h` with every entry named `name` taken out.
pub open spec fn without(h: Seq<(Seq<char>, Seq<char>)>, name: Seq<char>) -> Seq<(Seq<char>, Seq<char>)>
    decreases h.len(),
{
    if h.len() == 0 {
        Seq::empty()
    } else {
        let rest = without(h.drop_last(), name);
        if h.last().0 == name {
            rest
        } else {
            rest.push(h.last())
        }
    }
}

/// The table after the host has been told to set `name` to `value`: the
/// entries of that name are replaced by one, the others stay as they were.
pub open spec fn replaced(
    h: Seq<(Seq<char>, Seq<char>)>,
    name: Seq<char>,
    value: Seq<char>,
) -> Seq<(Seq<char>, Seq<char>)> {
    without(h, name).push((name, value))
}

proof fn lemma_values_of_push(
    h: Seq<(Seq<char>, Seq<char>)>,
    entry: (Seq<char>, Seq<char>),
    name: Seq<char>,
)
    ensures
        values_of(h.push(entry), name) == if entry.0 == name {
            values_of(h, name).push(entry.1)
        } else {
            values_of(h, name)
        },
{
    assert(h.push(entry).drop_last() =~= h);
}

proof fn lemma_without_values(h: Seq<(Seq<char>, Seq<char>)>, name: Seq<char>, other: Seq<char>)
    ensures
        values_of(without(h, name), other) == if other == name {
            Seq::<Seq<char>>::empty()
        } else {
            values_of(h, other)
        },
    decreases h.len(),
{
    if h.len() > 0 {
        lemma_without_values(h.drop_last(), name, other);
        if h.last().0 != name {
            lemma_values_of_push(without(h.drop_last(), name), h.last(), other);
        }
    }
}

/// Setting a header leaves exactly one value under its name: the one set,
/// whatever the table held under that name before.
pub proof fn lemma_replaced_single_value(
    h: Seq<(Seq<char>, Seq<char>)>,
    name: Seq<char>,
    value: Seq<char>,
)
    ensures
        values_of(replaced(h, name, value), name) == seq![value],
{
    lemma_without_values(h, name, name);
    lemma_values_of_push(without(h, name), (name, value), name);
    assert(Seq::<Seq<char>>::empty().push(value) =~= seq![value]);
}

/// Setting a header leaves the values of every other name as they were.
pub proof fn lemma_replaced_keeps_others(
    h: Seq<(Seq<char>, Seq<char>)>,
    name: Seq<char>,
    value: Seq<char>,
    other: Seq<char>,
)
    requires
        other != name,
    ensures
        values_of(replaced(h, name, value), other) == values_of(h, other),
{
    lemma_without_values(h, name, other);
    lemma_values_of_push(without(h, name), (name, value), other);
}

} // verus!
