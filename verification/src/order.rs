//! The order of a feed: newest first, and stable.

use crate::entry::{FeedEntry, FeedEntryView};
use vstd::prelude::*;
use vstd::relations::injective_on;
use vstd::set_lib::{lemma_int_range, lemma_map_size, lemma_subset_equality, set_int_range};

verus! {

/// No entry is dated later than an entry before it.
pub open spec fn is_newest_first(entries: Seq<FeedEntryView>) -> bool {
    forall|i: int, j: int|
        0 <= i < j < entries.len() ==> !(#[trigger] entries[j]).date.is_after(
            (#[trigger] entries[i]).date,
        )
}

/// `positions` places the entries of `input` from index `from` on into
/// `output`, one to one, so that entries of the same date keep their
/// relative order. `positions[t]` is where `input[from + t]` went.
pub open spec fn is_arranged(
    input: Seq<FeedEntryView>,
    from: int,
    output: Seq<FeedEntryView>,
    positions: Seq<int>,
) -> bool {
    &&& 0 <= from <= input.len()
    &&& positions.len() == input.len() - from
    &&& output.len() == input.len() - from
    &&& forall|t: int|
        0 <= t < positions.len() ==> 0 <= #[trigger] positions[t] < output.len()
            && output[positions[t]] == input[from + t]
    &&& forall|t: int, u: int|
        0 <= t < u < positions.len() ==> #[trigger] positions[t] != #[trigger] positions[u]
    &&& forall|t: int, u: int|
        0 <= t < u < positions.len() && input[from + t].date == input[from + u].date
            ==> #[trigger] positions[t] < #[trigger] positions[u]
}

/// `output` holds the entries of `input`, newest first, with entries of
/// the same date in their input order.
pub open spec fn is_stable_sort(input: Seq<FeedEntryView>, output: Seq<FeedEntryView>) -> bool {
    &&& is_newest_first(output)
    &&& exists|positions: Seq<int>| is_arranged(input, 0, output, positions)
}

/// Where the entries go when a new one is inserted at `at`.
pub open spec fn shifted(positions: Seq<int>, at: int) -> Seq<int> {
    seq![at] + Seq::new(
        positions.len(),
        |t: int|
            if positions[t] >= at {
                positions[t] + 1
            } else {
                positions[t]
            },
    )
}

proof fn lemma_insert_keeps_order(
    input: Seq<FeedEntryView>,
    from: int,
    output: Seq<FeedEntryView>,
    positions: Seq<int>,
    at: int,
)
    requires
        0 < from,
        is_arranged(input, from, output, positions),
        is_newest_first(output),
        0 <= at <= output.len(),
        forall|i: int| 0 <= i < at ==> (#[trigger] output[i]).date.is_after(input[from - 1].date),
        at < output.len() ==> !output[at].date.is_after(input[from - 1].date),
    ensures
        is_arranged(input, from - 1, output.insert(at, input[from - 1]), shifted(positions, at)),
        is_newest_first(output.insert(at, input[from - 1])),
{
    let entry = input[from - 1];
    let grown = output.insert(at, entry);
    let moved = shifted(positions, at);
    assert forall|i: int, j: int| 0 <= i < j < grown.len() implies !(#[trigger] grown[j]).date.is_after(
        (#[trigger] grown[i]).date,
    ) by {
        if j == at {
            assert(grown[i] == output[i]);
        } else if i == at {
            assert(grown[j] == output[j - 1]);
            if j - 1 > at {
                assert(!output[j - 1].date.is_after(output[at].date));
            }
        } else if i < at && j > at {
            assert(grown[i] == output[i]);
            assert(grown[j] == output[j - 1]);
        } else if j < at {
            assert(grown[i] == output[i]);
            assert(grown[j] == output[j]);
        } else {
            assert(grown[i] == output[i - 1]);
            assert(grown[j] == output[j - 1]);
        }
    }
    assert forall|t: int| 0 <= t < moved.len() implies 0 <= #[trigger] moved[t] < grown.len()
        && grown[moved[t]] == input[from - 1 + t] by {
        if t > 0 {
            let old_position = positions[t - 1];
            assert(output[old_position] == input[from + (t - 1)]);
        }
    }
    assert forall|t: int, u: int| 0 <= t < u < moved.len() implies #[trigger] moved[t]
        != #[trigger] moved[u] by {
        if t > 0 {
            assert(positions[t - 1] != positions[u - 1]);
        }
    }
    assert forall|t: int, u: int|
        0 <= t < u < moved.len() && input[from - 1 + t].date == input[from - 1 + u].date implies #[trigger] moved[t]
        < #[trigger] moved[u] by {
        if t > 0 {
            assert(input[from + (t - 1)].date == input[from + (u - 1)].date);
            assert(positions[t - 1] < positions[u - 1]);
        } else {
            let old_position = positions[u - 1];
            assert(output[old_position] == input[from + (u - 1)]);
            if old_position < at {
                assert(output[old_position].date.is_after(entry.date));
            }
        }
    }
}

/// Sorting is stable: of two entries with the same date, the one that
/// came first in the input comes first in the output.
pub proof fn lemma_sort_keeps_input_order_of_equal_dates(
    input: Seq<FeedEntryView>,
    output: Seq<FeedEntryView>,
    first: int,
    second: int,
)
    requires
        is_stable_sort(input, output),
        0 <= first < second < input.len(),
        input[first].date == input[second].date,
    ensures
        exists|i: int, j: int|
            0 <= i < j < output.len() && output[i] == input[first] && output[j] == input[second],
{
    let positions = choose|positions: Seq<int>| is_arranged(input, 0, output, positions);
    let i = positions[first];
    let j = positions[second];
    assert(output[i] == input[0 + first]);
    assert(output[j] == input[0 + second]);
    assert(0 <= i < j < output.len() && output[i] == input[first] && output[j] == input[second]);
}

/// Orders the entries newest first. Entries of the same date keep their
/// input order.
pub fn sort_entries(entries: Vec<FeedEntry>) -> (sorted: Vec<FeedEntry>)
    ensures
        is_stable_sort(entries.deep_view(), sorted.deep_view()),
{
    let ghost input = entries.deep_view();
    let mut rest = entries;
    let mut sorted: Vec<FeedEntry> = Vec::new();
    let ghost mut positions: Seq<int> = Seq::empty();
    assert(sorted.deep_view() =~= Seq::empty());
    while rest.len() > 0
        invariant
            input == entries.deep_view(),
            rest@.len() <= entries@.len(),
            rest@ == entries@.take(rest@.len() as int),
            is_arranged(input, rest@.len() as int, sorted.deep_view(), positions),
            is_newest_first(sorted.deep_view()),
        decreases rest@.len(),
    {
        let ghost from = rest@.len() as int;
        match rest.pop() {
            Some(entry) => {
                assert(entry == entries@[from - 1]);
                assert(entry@ == input[from - 1]);
                assert(rest@ =~= entries@.take(from - 1));
                let mut at: usize = 0;
                while at < sorted.len() && sorted[at].date.is_after(&entry.date)
                    invariant
                        at <= sorted@.len(),
                        forall|i: int|
                            0 <= i < at ==> (#[trigger] sorted.deep_view()[i]).date.is_after(
                                entry@.date,
                            ),
                    decreases sorted@.len() - at,
                {
                    at = at + 1;
                }
                let ghost before = sorted.deep_view();
                proof {
                    if at < sorted@.len() {
                        assert(before[at as int] == sorted@[at as int]@);
                    }
                    lemma_insert_keeps_order(input, from, before, positions, at as int);
                    positions = shifted(positions, at as int);
                }
                sorted.insert(at, entry);
                assert(sorted.deep_view() =~= before.insert(at as int, entry@));
            },
            None => {},
        }
    }
    sorted
}

/// Whether the entry at `a` must stand before the entry at `b`: it is
/// dated later, or dated the same and came first.
pub open spec fn precedes(input: Seq<FeedEntryView>, a: int, b: int) -> bool {
    input[a].date.is_after(input[b].date) || (input[a].date == input[b].date && a < b)
}

proof fn lemma_positions_follow_precedence(
    input: Seq<FeedEntryView>,
    output: Seq<FeedEntryView>,
    positions: Seq<int>,
    a: int,
    b: int,
)
    requires
        is_newest_first(output),
        is_arranged(input, 0, output, positions),
        0 <= a < input.len(),
        0 <= b < input.len(),
        a != b,
        precedes(input, a, b),
    ensures
        positions[a] < positions[b],
{
    let i = positions[a];
    let j = positions[b];
    assert(output[i] == input[0 + a]);
    assert(output[j] == input[0 + b]);
    if a < b {
        assert(positions[a] != positions[b]);
    } else {
        assert(positions[b] != positions[a]);
    }
    if j < i {
        assert(!output[i].date.is_after(output[j].date));
    }
}

proof fn lemma_positions_cover_output(
    input: Seq<FeedEntryView>,
    output: Seq<FeedEntryView>,
    positions: Seq<int>,
    i: int,
) -> (a: int)
    requires
        is_arranged(input, 0, output, positions),
        0 <= i < output.len(),
    ensures
        0 <= a < input.len(),
        positions[a] == i,
{
    let n = input.len() as int;
    let domain = set_int_range(0, n);
    let place = |a: int| positions[a];
    let image = domain.map(place);
    lemma_int_range(0, n);
    assert(injective_on(place, domain)) by {
        assert forall|x: int, y: int|
            domain.contains(x) && domain.contains(y) && #[trigger] place(x) == #[trigger] place(
                y,
            ) implies x == y by {
            if x < y {
                assert(positions[x] != positions[y]);
            } else if y < x {
                assert(positions[y] != positions[x]);
            }
        }
    }
    lemma_map_size(domain, image, place);
    assert(image.subset_of(domain)) by {
        assert forall|v: int| image.contains(v) implies domain.contains(v) by {
            let a = choose|a: int| domain.contains(a) && v == place(a);
            assert(0 <= positions[a] < output.len());
        }
    }
    lemma_subset_equality(image, domain);
    assert(domain.contains(i));
    assert(image.contains(i));
    choose|a: int| domain.contains(a) && i == place(a)
}

proof fn lemma_same_origin(
    input: Seq<FeedEntryView>,
    first: Seq<FeedEntryView>,
    second: Seq<FeedEntryView>,
    first_positions: Seq<int>,
    second_positions: Seq<int>,
    i: int,
) -> (a: int)
    requires
        is_newest_first(first),
        is_newest_first(second),
        is_arranged(input, 0, first, first_positions),
        is_arranged(input, 0, second, second_positions),
        0 <= i < input.len(),
    ensures
        0 <= a < input.len(),
        first_positions[a] == i,
        second_positions[a] == i,
    decreases i,
{
    let a = lemma_positions_cover_output(input, first, first_positions, i);
    let b = lemma_positions_cover_output(input, second, second_positions, i);
    if a != b {
        if a < b {
            assert(first_positions[a] != first_positions[b]);
        } else {
            assert(first_positions[b] != first_positions[a]);
        }
        if first_positions[b] < i {
            let c = lemma_same_origin(
                input,
                first,
                second,
                first_positions,
                second_positions,
                first_positions[b],
            );
            if c < b {
                assert(first_positions[c] != first_positions[b]);
            } else if b < c {
                assert(first_positions[b] != first_positions[c]);
            }
            assert(false);
        } else {
            if precedes(input, b, a) {
                lemma_positions_follow_precedence(input, first, first_positions, b, a);
                assert(false);
            }
            assert(precedes(input, a, b));
            lemma_positions_follow_precedence(input, second, second_positions, a, b);
            let c = lemma_same_origin(
                input,
                first,
                second,
                first_positions,
                second_positions,
                second_positions[a],
            );
            if c < a {
                assert(second_positions[c] != second_positions[a]);
            } else if a < c {
                assert(second_positions[a] != second_positions[c]);
            }
            assert(false);
        }
    }
    a
}

/// The order is determined: whatever way the entries are sorted, newest
/// first and stably, the outcome is the same.
pub proof fn lemma_stable_sort_is_unique(
    input: Seq<FeedEntryView>,
    first: Seq<FeedEntryView>,
    second: Seq<FeedEntryView>,
)
    requires
        is_stable_sort(input, first),
        is_stable_sort(input, second),
    ensures
        first == second,
{
    let first_positions = choose|positions: Seq<int>| is_arranged(input, 0, first, positions);
    let second_positions = choose|positions: Seq<int>| is_arranged(input, 0, second, positions);
    assert forall|i: int| 0 <= i < first.len() implies first[i] == second[i] by {
        let a = lemma_same_origin(input, first, second, first_positions, second_positions, i);
        assert(first[first_positions[a]] == input[0 + a]);
        assert(second[second_positions[a]] == input[0 + a]);
    }
    assert(first =~= second);
}

} // verus!
